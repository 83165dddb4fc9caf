//! The list of targets: one literal target, or the lines of a target file.
use vstd::prelude::*;
use vstd::string::*;
use vstd::std_specs::iter::IteratorSpec;
use crate::config::ConfigError;

verus! {

broadcast use vstd::string::group_string_axioms;

/// Where the targets come from.
#[derive(Clone, Copy, Debug, PartialEq, Eq, Structural)]
pub enum InputMode {
    /// The source is a single target.
    Ip,
    /// The source names a file with one target per line.
    File,
}

/// The text split at each `'\n'`: every piece but the last is followed by a
/// newline in the text; the last piece is what follows the final newline.
pub open spec fn pieces(s: Seq<char>) -> Seq<Seq<char>>
    decreases s.len(),
{
    if s.len() == 0 {
        seq![Seq::empty()]
    } else {
        let p = pieces(s.drop_last());
        if s.last() == '\n' {
            p.push(Seq::empty())
        } else {
            p.update(p.len() - 1, p.last().push(s.last()))
        }
    }
}

/// A line ended by `"\r\n"` loses the `'\r'` as well as the newline.
pub open spec fn strip_cr(l: Seq<char>) -> Seq<char> {
    if l.len() > 0 && l.last() == '\r' {
        l.drop_last()
    } else {
        l
    }
}

/// The lines of a text: each newline-ended piece without its line ending, then
/// the text after the last newline unless it is empty. Nothing else is trimmed.
pub open spec fn lines_of(s: Seq<char>) -> Seq<Seq<char>> {
    let p = pieces(s);
    let ended = p.drop_last().map_values(|l: Seq<char>| strip_cr(l));
    if p.last().len() == 0 {
        ended
    } else {
        ended.push(p.last())
    }
}

pub open spec fn views(v: Seq<String>) -> Seq<Seq<char>> {
    v.map_values(|s: String| s@)
}

proof fn lemma_pieces_nonempty(s: Seq<char>)
    ensures
        pieces(s).len() >= 1,
    decreases s.len(),
{
    if s.len() > 0 {
        lemma_pieces_nonempty(s.drop_last());
    }
}

/// Relies on `String`'s `FromIterator<&char>`: the string of the given characters.
#[verifier::external_body]
fn text_of(chars: &[char]) -> (r: String)
    ensures
        r@ == chars@,
{
    chars.iter().collect()
}

/// The targets of a target file's text: one per line, in order; an empty text
/// gives none.
pub fn parse_targets(content: &str) -> (r: Vec<String>)
    ensures
        views(r@) == lines_of(content@),
{
    let n = content.unicode_len();
    let mut it = content.chars();
    let mut out: Vec<String> = Vec::new();
    let mut cur: Vec<char> = Vec::new();
    let mut k: usize = 0;
    proof {
        assert(content@.take(0) =~= Seq::<char>::empty());
    }
    while k < n
        invariant
            n == content@.len(),
            k <= n,
            it.obeys_prophetic_iter_laws(),
            it.remaining() == content@.skip(k as int),
            pieces(content@.take(k as int)).len() >= 1,
            views(out@) == pieces(content@.take(k as int)).drop_last().map_values(
                |l: Seq<char>| strip_cr(l),
            ),
            cur@ == pieces(content@.take(k as int)).last(),
        decreases n - k,
    {
        let c = it.next();
        let ghost pre = content@.take(k as int);
        let ghost post = content@.take(k + 1);
        proof {
            assert(post.drop_last() =~= pre);
            assert(post.last() == content@[k as int]);
            lemma_pieces_nonempty(post);
        }
        match c {
            Some(ch) => {
                if ch == '\n' {
                    let mut line = cur;
                    let len = line.len();
                    if len > 0 && line[len - 1] == '\r' {
                        line.pop();
                    }
                    proof {
                        assert(line@ == strip_cr(pieces(pre).last()));
                    }
                    let ghost old_out = out@;
                    out.push(text_of(line.as_slice()));
                    cur = Vec::new();
                    proof {
                        assert(views(out@) =~= views(old_out).push(line@));
                        assert(pieces(pre).map_values(|l: Seq<char>| strip_cr(l)) =~= pieces(
                            pre,
                        ).drop_last().map_values(|l: Seq<char>| strip_cr(l)).push(
                            strip_cr(pieces(pre).last()),
                        ));
                        assert(pieces(post).drop_last() =~= pieces(pre));
                        assert(pieces(pre) =~= pieces(pre).drop_last().push(pieces(pre).last()));
                        assert(views(out@) =~= pieces(post).drop_last().map_values(
                            |l: Seq<char>| strip_cr(l),
                        ));
                        assert(cur@ =~= pieces(post).last());
                    }
                } else {
                    cur.push(ch);
                    proof {
                        assert(pieces(post).drop_last() =~= pieces(pre).drop_last());
                        assert(cur@ =~= pieces(post).last());
                    }
                }
            },
            None => {
                proof {
                    assert(false);
                }
            },
        }
        k = k + 1;
    }
    proof {
        assert(content@.take(n as int) =~= content@);
    }
    if cur.len() > 0 {
        let ghost old_out = out@;
        out.push(text_of(cur.as_slice()));
        proof {
            assert(views(out@) =~= views(old_out).push(cur@));
            assert(views(out@) =~= lines_of(content@));
        }
    }
    out
}

/// The input mode named by a command-line word: `ip` or `file`.
pub fn input_mode(word: &str) -> (r: Result<InputMode, ConfigError>)
    ensures
        word@ == "ip"@ ==> r == Ok::<InputMode, ConfigError>(InputMode::Ip),
        word@ == "file"@ ==> r == Ok::<InputMode, ConfigError>(InputMode::File),
        word@ != "ip"@ && word@ != "file"@ ==> r == Err::<InputMode, ConfigError>(
            ConfigError::InvalidInputMode,
        ),
{
    proof {
        reveal_strlit("ip");
        reveal_strlit("file");
        assert("ip"@ != "file"@) by {
            assert("ip"@.len() != "file"@.len());
        }
    }
    let w = String::from_str(word);
    if w == String::from_str("ip") {
        Ok(InputMode::Ip)
    } else if w == String::from_str("file") {
        Ok(InputMode::File)
    } else {
        Err(ConfigError::InvalidInputMode)
    }
}

/// The batch's targets: the source itself in `Ip` mode, the lines of the
/// file's text in `File` mode.
pub fn targets_from(mode: InputMode, source: &str, file_text: &str) -> (r: Vec<String>)
    ensures
        mode == InputMode::Ip ==> views(r@) == seq![source@],
        mode == InputMode::File ==> views(r@) == lines_of(file_text@),
{
    match mode {
        InputMode::Ip => {
            let mut v: Vec<String> = Vec::new();
            v.push(String::from_str(source));
            proof {
                assert(views(v@) =~= seq![source@]);
            }
            v
        },
        InputMode::File => parse_targets(file_text),
    }
}

} // verus!
