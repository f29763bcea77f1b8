//! Shell-word tokenization of a raw command line.
//!
//! A raw command is split as a POSIX shell would split it, with word
//! expansion limited to quote removal: whitespace separates words; single
//! quotes keep their contents literally; double quotes keep their contents
//! with backslash escapes for `$`, backquote, `"`, `\` and line
//! continuations; a backslash outside quotes escapes the next character;
//! `#` at the start of a word begins a comment. An unclosed quote is an
//! error. `split_run` is the definition; `split` is proved against it.

use vstd::prelude::*;

use vstd::string::StringExecFns;

use crate::errors::SetupError;
use crate::text::{str_to_chars, chars_to_string, strings_view};

verus! {

/// The tokenizer's state between two characters.
#[derive(Clone, Copy)]
pub enum SplitState {
    /// Between words.
    Delimiter,
    /// After a backslash that opened a word.
    Backslash,
    /// Inside an unquoted word.
    Unquoted,
    /// After a backslash inside an unquoted word.
    UnquotedBackslash,
    /// Inside single quotes.
    SingleQuoted,
    /// Inside double quotes.
    DoubleQuoted,
    /// After a backslash inside double quotes.
    DoubleQuotedBackslash,
    /// Inside a comment.
    Comment,
}

/// Runs the tokenizer from position `i` in state `st`, with the word built
/// so far and the words already finished; `None` means an unclosed quote.
pub open spec fn split_run(
    s: Seq<char>,
    i: int,
    st: SplitState,
    word: Seq<char>,
    words: Seq<Seq<char>>,
) -> Option<Seq<Seq<char>>>
    decreases s.len() - i,
{
    if i >= s.len() {
        match st {
            SplitState::Delimiter => Some(words),
            SplitState::Comment => Some(words),
            SplitState::Backslash => Some(words.push(word.push('\\'))),
            SplitState::Unquoted => Some(words.push(word)),
            SplitState::UnquotedBackslash => Some(words.push(word.push('\\'))),
            SplitState::SingleQuoted => None,
            SplitState::DoubleQuoted => None,
            SplitState::DoubleQuotedBackslash => None,
        }
    } else {
        let c = s[i];
        match st {
            SplitState::Delimiter => {
                if c == '\'' {
                    split_run(s, i + 1, SplitState::SingleQuoted, word, words)
                } else if c == '"' {
                    split_run(s, i + 1, SplitState::DoubleQuoted, word, words)
                } else if c == '\\' {
                    split_run(s, i + 1, SplitState::Backslash, word, words)
                } else if c == '\t' || c == ' ' || c == '\n' {
                    split_run(s, i + 1, SplitState::Delimiter, word, words)
                } else if c == '#' {
                    split_run(s, i + 1, SplitState::Comment, word, words)
                } else {
                    split_run(s, i + 1, SplitState::Unquoted, word.push(c), words)
                }
            },
            SplitState::Backslash => {
                if c == '\n' {
                    split_run(s, i + 1, SplitState::Delimiter, word, words)
                } else {
                    split_run(s, i + 1, SplitState::Unquoted, word.push(c), words)
                }
            },
            SplitState::Unquoted => {
                if c == '\'' {
                    split_run(s, i + 1, SplitState::SingleQuoted, word, words)
                } else if c == '"' {
                    split_run(s, i + 1, SplitState::DoubleQuoted, word, words)
                } else if c == '\\' {
                    split_run(s, i + 1, SplitState::UnquotedBackslash, word, words)
                } else if c == '\t' || c == ' ' || c == '\n' {
                    split_run(s, i + 1, SplitState::Delimiter, Seq::empty(), words.push(word))
                } else {
                    split_run(s, i + 1, SplitState::Unquoted, word.push(c), words)
                }
            },
            SplitState::UnquotedBackslash => {
                if c == '\n' {
                    split_run(s, i + 1, SplitState::Unquoted, word, words)
                } else {
                    split_run(s, i + 1, SplitState::Unquoted, word.push(c), words)
                }
            },
            SplitState::SingleQuoted => {
                if c == '\'' {
                    split_run(s, i + 1, SplitState::Unquoted, word, words)
                } else {
                    split_run(s, i + 1, SplitState::SingleQuoted, word.push(c), words)
                }
            },
            SplitState::DoubleQuoted => {
                if c == '"' {
                    split_run(s, i + 1, SplitState::Unquoted, word, words)
                } else if c == '\\' {
                    split_run(s, i + 1, SplitState::DoubleQuotedBackslash, word, words)
                } else {
                    split_run(s, i + 1, SplitState::DoubleQuoted, word.push(c), words)
                }
            },
            SplitState::DoubleQuotedBackslash => {
                if c == '\n' {
                    split_run(s, i + 1, SplitState::DoubleQuoted, word, words)
                } else if c == '$' || c == '`' || c == '"' || c == '\\' {
                    split_run(s, i + 1, SplitState::DoubleQuoted, word.push(c), words)
                } else {
                    split_run(s, i + 1, SplitState::DoubleQuoted, word.push('\\').push(c), words)
                }
            },
            SplitState::Comment => {
                if c == '\n' {
                    split_run(s, i + 1, SplitState::Delimiter, word, words)
                } else {
                    split_run(s, i + 1, SplitState::Comment, word, words)
                }
            },
        }
    }
}

/// The words of a whole command line.
pub open spec fn spec_split(s: Seq<char>) -> Option<Seq<Seq<char>>> {
    split_run(s, 0, SplitState::Delimiter, Seq::empty(), Seq::empty())
}

/// The character sequences of a vector of char vectors.
pub open spec fn chunks_view(v: Seq<Vec<char>>) -> Seq<Seq<char>>
    decreases v.len(),
{
    if v.len() == 0 {
        Seq::empty()
    } else {
        chunks_view(v.drop_last()).push(v.last()@)
    }
}

/// Converts finished words into strings.
fn words_to_strings(words: Vec<Vec<char>>) -> (r: Vec<String>)
    ensures
        strings_view(r@) == chunks_view(words@),
{
    let mut r: Vec<String> = Vec::new();
    let mut k: usize = 0;
    while k < words.len()
        invariant
            k <= words@.len(),
            strings_view(r@) == chunks_view(words@.subrange(0, k as int)),
        decreases words@.len() - k,
    {
        let ghost r0 = r@;
        let ghost prev = words@.subrange(0, k as int);
        r.push(chars_to_string(&words[k]));
        proof {
            assert(r@.drop_last() =~= r0);
            assert(strings_view(r@) == strings_view(r0).push(r@.last()@));
            let cur = words@.subrange(0, k as int + 1);
            assert(cur.drop_last() =~= prev);
            assert(cur.last() == words@[k as int]);
            assert(chunks_view(cur) == chunks_view(prev).push(words@[k as int]@));
        }
        k = k + 1;
    }
    proof {
        assert(words@.subrange(0, words@.len() as int) =~= words@);
    }
    r
}

/// Splits a command line into its words, exactly as `spec_split` describes;
/// an unclosed quote is reported as an invalid command.
#[verifier::loop_isolation(false)]
pub fn split(s: &str) -> (r: Result<Vec<String>, SetupError>)
    ensures
        match r {
            Ok(words) => spec_split(s@) matches Some(ws) && strings_view(words@) == ws,
            Err(e) => spec_split(s@) is None && (e matches SetupError::InvalidCommand(m) && m@
                == "missing closing quote"@),
        },
{
    let chars = str_to_chars(s);
    let n = chars.len();
    let mut i: usize = 0;
    let mut st = SplitState::Delimiter;
    let mut word: Vec<char> = Vec::new();
    let mut words: Vec<Vec<char>> = Vec::new();

    while i < n
        invariant
            i <= n,
            spec_split(s@) == split_run(s@, i as int, st, word@, chunks_view(words@)),
        decreases n - i,
    {
        let ghost words0 = words@;
        let c = chars[i];
        match st {
            SplitState::Delimiter => {
                if c == '\'' {
                    st = SplitState::SingleQuoted;
                } else if c == '"' {
                    st = SplitState::DoubleQuoted;
                } else if c == '\\' {
                    st = SplitState::Backslash;
                } else if c == '\t' || c == ' ' || c == '\n' {
                } else if c == '#' {
                    st = SplitState::Comment;
                } else {
                    word.push(c);
                    st = SplitState::Unquoted;
                }
            },
            SplitState::Backslash => {
                if c == '\n' {
                    st = SplitState::Delimiter;
                } else {
                    word.push(c);
                    st = SplitState::Unquoted;
                }
            },
            SplitState::Unquoted => {
                if c == '\'' {
                    st = SplitState::SingleQuoted;
                } else if c == '"' {
                    st = SplitState::DoubleQuoted;
                } else if c == '\\' {
                    st = SplitState::UnquotedBackslash;
                } else if c == '\t' || c == ' ' || c == '\n' {
                    let finished = word;
                    word = Vec::new();
                    words.push(finished);
                    st = SplitState::Delimiter;
                    proof {
                        assert(words@.drop_last() =~= words0);
                        assert(chunks_view(words@) == chunks_view(words0).push(finished@));
                    }
                } else {
                    word.push(c);
                }
            },
            SplitState::UnquotedBackslash => {
                if c == '\n' {
                    st = SplitState::Unquoted;
                } else {
                    word.push(c);
                    st = SplitState::Unquoted;
                }
            },
            SplitState::SingleQuoted => {
                if c == '\'' {
                    st = SplitState::Unquoted;
                } else {
                    word.push(c);
                }
            },
            SplitState::DoubleQuoted => {
                if c == '"' {
                    st = SplitState::Unquoted;
                } else if c == '\\' {
                    st = SplitState::DoubleQuotedBackslash;
                } else {
                    word.push(c);
                }
            },
            SplitState::DoubleQuotedBackslash => {
                if c == '\n' {
                    st = SplitState::DoubleQuoted;
                } else if c == '$' || c == '`' || c == '"' || c == '\\' {
                    word.push(c);
                    st = SplitState::DoubleQuoted;
                } else {
                    word.push('\\');
                    word.push(c);
                    st = SplitState::DoubleQuoted;
                }
            },
            SplitState::Comment => {
                if c == '\n' {
                    st = SplitState::Delimiter;
                }
            },
        }
        i = i + 1;
    }
    match st {
        SplitState::Delimiter => Ok(words_to_strings(words)),
        SplitState::Comment => Ok(words_to_strings(words)),
        SplitState::Backslash => {
            word.push('\\');
            let ghost words0 = words@;
            let finished = word;
            words.push(finished);
            proof {
                assert(words@.drop_last() =~= words0);
                assert(chunks_view(words@) == chunks_view(words0).push(finished@));
            }
            Ok(words_to_strings(words))
        },
        SplitState::UnquotedBackslash => {
            word.push('\\');
            let ghost words0 = words@;
            let finished = word;
            words.push(finished);
            proof {
                assert(words@.drop_last() =~= words0);
                assert(chunks_view(words@) == chunks_view(words0).push(finished@));
            }
            Ok(words_to_strings(words))
        },
        SplitState::Unquoted => {
            let ghost words0 = words@;
            let finished = word;
            words.push(finished);
            proof {
                assert(words@.drop_last() =~= words0);
                assert(chunks_view(words@) == chunks_view(words0).push(finished@));
            }
            Ok(words_to_strings(words))
        },
        SplitState::SingleQuoted => Err(
            SetupError::InvalidCommand(String::from_str("missing closing quote")),
        ),
        SplitState::DoubleQuoted => Err(
            SetupError::InvalidCommand(String::from_str("missing closing quote")),
        ),
        SplitState::DoubleQuotedBackslash => Err(
            SetupError::InvalidCommand(String::from_str("missing closing quote")),
        ),
    }
}

} // verus!
