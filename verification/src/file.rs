//! Input-file lines: one pattern per line, followed by optional flag
//! tokens. Reading the file itself belongs to the caller; this module
//! parses one line into a pattern and its flags.

use vstd::prelude::*;

use crate::flags::VanityFlags;
use crate::utils::{str_eq, unicode_whitespace};
use crate::vanity_addr_generator::chain::Chain;
use crate::vanity_addr_generator::vanity_addr::VanityMode;
use vstd::string::StrSliceExecFns;

verus! {

/// One line of an input file: a pattern and the flags written after it.
#[derive(Debug, Clone)]
pub struct FileLineItem {
    /// The pattern to search for.
    pub pattern: String,
    /// The flags written after the pattern.
    pub flags: VanityFlags,
}

/// How many leading characters of `s` are not white space.
pub open spec fn spec_token_len(s: Seq<char>) -> int
    decreases s.len(),
{
    if s.len() == 0 || unicode_whitespace(s[0]) {
        0
    } else {
        1 + spec_token_len(s.drop_first())
    }
}

/// The leading non-white-space run is never longer than the text, and is
/// non-empty exactly when the text starts with non-white-space.
proof fn lemma_token_len_bounds(s: Seq<char>)
    ensures
        0 <= spec_token_len(s) <= s.len(),
        s.len() > 0 && !unicode_whitespace(s[0]) ==> spec_token_len(s) >= 1,
    decreases s.len(),
{
    if s.len() == 0 || unicode_whitespace(s[0]) {
    } else {
        lemma_token_len_bounds(s.drop_first());
    }
}

/// The leading non-white-space run ends at the first white-space
/// character.
proof fn lemma_token_len_at_first_ws(s: Seq<char>, m: int)
    requires
        0 <= m <= s.len(),
        forall|k: int| 0 <= k < m ==> !unicode_whitespace(#[trigger] s[k]),
        m == s.len() || unicode_whitespace(s[m]),
    ensures
        spec_token_len(s) == m,
    decreases m,
{
    if m == 0 {
    } else {
        lemma_token_len_at_first_ws(s.drop_first(), m - 1);
    }
}

/// The white-space-separated tokens of a text, in order, without empty
/// tokens.
pub open spec fn spec_tokens(s: Seq<char>) -> Seq<Seq<char>>
    decreases s.len(),
    via spec_tokens_decreases
{
    if s.len() == 0 {
        Seq::empty()
    } else if unicode_whitespace(s[0]) {
        spec_tokens(s.drop_first())
    } else {
        seq![s.take(spec_token_len(s))] + spec_tokens(s.skip(spec_token_len(s)))
    }
}

#[via_fn]
proof fn spec_tokens_decreases(s: Seq<char>) {
    if s.len() > 0 && !unicode_whitespace(s[0]) {
        lemma_token_len_bounds(s);
    }
}

/// Whether `t` is among `tokens`.
pub open spec fn spec_has_token(tokens: Seq<Seq<char>>, t: Seq<char>) -> bool {
    exists|i: int| 0 <= i < tokens.len() && tokens[i] == t
}

/// Whether a token names the output file option.
pub open spec fn spec_is_output_flag(t: Seq<char>) -> bool {
    t == "-o"@ || t == "--output-file"@
}

/// The value of the last output file option that has a token after it.
pub open spec fn spec_output_name(flags: Seq<Seq<char>>) -> Option<Seq<char>>
    decreases flags.len(),
{
    if flags.len() < 2 {
        None
    } else if spec_is_output_flag(flags[flags.len() - 2]) {
        Some(flags[flags.len() - 1])
    } else {
        spec_output_name(flags.drop_last())
    }
}

/// The chain the flag tokens pick, if any.
pub open spec fn spec_flags_chain(flags: Seq<Seq<char>>) -> Option<Chain> {
    if spec_has_token(flags, "--eth"@) {
        Some(Chain::Ethereum)
    } else if spec_has_token(flags, "--sol"@) {
        Some(Chain::Solana)
    } else if spec_has_token(flags, "--btc"@) {
        Some(Chain::Bitcoin)
    } else {
        None
    }
}

/// The matching mode the flag tokens pick, if any.
pub open spec fn spec_flags_mode(flags: Seq<Seq<char>>) -> Option<VanityMode> {
    if spec_has_token(flags, "-r"@) || spec_has_token(flags, "--regex"@) {
        Some(VanityMode::Regex)
    } else if spec_has_token(flags, "-a"@) || spec_has_token(flags, "--anywhere"@) {
        Some(VanityMode::Anywhere)
    } else if spec_has_token(flags, "-s"@) || spec_has_token(flags, "--suffix"@) {
        Some(VanityMode::Suffix)
    } else if spec_has_token(flags, "-p"@) || spec_has_token(flags, "--prefix"@) {
        Some(VanityMode::Prefix)
    } else {
        None
    }
}

/// Whether the parsed flags are the ones the flag tokens describe: a
/// line without flag tokens gets defaults, any other line gets exactly
/// what its tokens say.
pub open spec fn spec_line_flags_ok(flags: Seq<Seq<char>>, f: VanityFlags) -> bool {
    if flags.len() == 0 {
        &&& !f.force_flags
        &&& !f.is_case_sensitive
        &&& !f.disable_fast_mode
        &&& f.output_file_name is None
        &&& f.vanity_mode is None
        &&& f.chain is None
        &&& f.threads == 16
    } else {
        &&& !f.force_flags
        &&& f.is_case_sensitive == (spec_has_token(flags, "-c"@) || spec_has_token(
            flags,
            "--case-sensitive"@,
        ))
        &&& f.disable_fast_mode == (spec_has_token(flags, "-d"@) || spec_has_token(
            flags,
            "--disable-fast"@,
        ))
        &&& (match f.output_file_name {
            Some(name) => spec_output_name(flags) == Some(name@),
            None => spec_output_name(flags) is None,
        })
        &&& f.vanity_mode == spec_flags_mode(flags)
        &&& f.chain == spec_flags_chain(flags)
        &&& f.threads == 0
    }
}

/// The views of a sequence of strings.
pub open spec fn views_of(tokens: Seq<String>) -> Seq<Seq<char>> {
    tokens.map_values(|s: String| s@)
}

/// Splits a line into its white-space-separated tokens.
fn split_whitespace_tokens(line: &str) -> (r: Vec<String>)
    ensures
        views_of(r@) == spec_tokens(line@),
{
    let n = line.unicode_len();
    let mut tokens: Vec<String> = Vec::new();
    let mut i: usize = 0;
    proof {
        assert(line@.skip(0) =~= line@);
        assert(views_of(tokens@) =~= Seq::<Seq<char>>::empty());
    }
    while i < n
        invariant
            n == line@.len(),
            0 <= i <= n,
            spec_tokens(line@) == views_of(tokens@) + spec_tokens(line@.skip(i as int)),
        decreases n - i,
    {
        let c = line.get_char(i);
        if c.is_whitespace() {
            i += 1;
            proof {
                assert(line@.skip(i - 1).drop_first() =~= line@.skip(i as int));
            }
        } else {
            let mut tok = String::new();
            let mut j: usize = i;
            while j < n && !line.get_char(j).is_whitespace()
                invariant
                    n == line@.len(),
                    i <= j <= n,
                    tok@ == line@.subrange(i as int, j as int),
                    forall|k: int| i <= k < j ==> !unicode_whitespace(#[trigger] line@[k]),
                decreases n - j,
            {
                tok.push(line.get_char(j));
                j += 1;
                proof {
                    assert(line@.subrange(i as int, j as int) =~= line@.subrange(
                        i as int,
                        j - 1,
                    ).push(line@[j - 1]));
                }
            }
            let ghost s = line@.skip(i as int);
            proof {
                assert forall|k: int| 0 <= k < j - i implies !unicode_whitespace(#[trigger] s[k]) by {
                    assert(s[k] == line@[i + k]);
                }
                if (j as int) - (i as int) < s.len() {
                    assert(s[j - i] == line@[j as int]);
                }
                lemma_token_len_at_first_ws(s, j - i);
                assert(s.take(j - i) =~= line@.subrange(i as int, j as int));
                assert(s.skip(j - i) =~= line@.skip(j as int));
            }
            let ghost before = tokens@;
            tokens.push(tok);
            i = j;
            proof {
                assert(views_of(tokens@) =~= views_of(before) + seq![tok@]);
                assert((views_of(before) + seq![tok@]) + spec_tokens(line@.skip(i as int))
                    =~= views_of(before) + (seq![tok@] + spec_tokens(line@.skip(i as int))));
            }
        }
    }
    proof {
        assert(line@.skip(n as int) =~= Seq::<char>::empty());
        assert(views_of(tokens@) + spec_tokens(line@.skip(n as int)) =~= views_of(tokens@));
    }
    tokens
}

/// Whether one of the tokens from `start` on equals `t`.
fn has_token_from(tokens: &Vec<String>, start: usize, t: &str) -> (r: bool)
    requires
        start <= tokens@.len(),
    ensures
        r == spec_has_token(views_of(tokens@).skip(start as int), t@),
{
    let mut i = start;
    while i < tokens.len()
        invariant
            start <= i <= tokens@.len(),
            forall|j: int| start <= j < i ==> views_of(tokens@)[j] != t@,
        decreases tokens@.len() - i,
    {
        if str_eq(tokens[i].as_str(), t) {
            proof {
                assert(views_of(tokens@).skip(start as int)[i - start] == t@);
            }
            return true;
        }
        i += 1;
    }
    proof {
        assert forall|k: int|
            0 <= k < views_of(tokens@).skip(start as int).len() implies views_of(tokens@).skip(
            start as int,
        )[k] != t@ by {
            assert(views_of(tokens@).skip(start as int)[k] == views_of(tokens@)[start + k]);
        }
    }
    false
}

/// The value written after the last output file option, scanning the
/// tokens after the pattern.
fn scan_output_name(tokens: &Vec<String>) -> (r: Option<String>)
    requires
        tokens@.len() >= 1,
    ensures
        match r {
            Some(name) => spec_output_name(views_of(tokens@).drop_first()) == Some(name@),
            None => spec_output_name(views_of(tokens@).drop_first()) is None,
        },
{
    let ghost flags = views_of(tokens@).drop_first();
    let mut name: Option<String> = None;
    let mut i: usize = 1;
    proof {
        assert(flags.take(if 1 <= flags.len() {
            1int
        } else {
            flags.len() as int
        }).len() < 2);
    }
    while i < tokens.len()
        invariant
            1 <= i <= tokens@.len(),
            flags == views_of(tokens@).drop_first(),
            flags.len() == tokens@.len() - 1,
            ({
                let k = if i <= flags.len() {
                    i as int
                } else {
                    flags.len() as int
                };
                match name {
                    Some(n) => spec_output_name(flags.take(k)) == Some(n@),
                    None => spec_output_name(flags.take(k)) is None,
                }
            }),
        decreases tokens@.len() - i,
    {
        let ghost q = i - 1int;
        proof {
            assert(flags[q] == views_of(tokens@)[i as int]);
        }
        if (str_eq(tokens[i].as_str(), "-o") || str_eq(tokens[i].as_str(), "--output-file")) && i
            + 1 < tokens.len() {
            name = Some(tokens[i + 1].clone());
            proof {
                assert(flags[q + 1] == views_of(tokens@)[i + 1]);
                assert(flags.take(q + 2).drop_last() =~= flags.take(q + 1));
                assert(flags.take(q + 2)[q] == flags[q]);
                assert(flags.take(q + 2)[q + 1] == flags[q + 1]);
            }
        } else {
            proof {
                if q + 2 <= flags.len() {
                    assert(flags.take(q + 2).drop_last() =~= flags.take(q + 1));
                    assert(flags.take(q + 2)[q] == flags[q]);
                }
            }
        }
        i += 1;
    }
    proof {
        assert(flags.take(flags.len() as int) =~= flags);
    }
    name
}

/// Parses one input line: nothing for a comment or a blank line,
/// otherwise the first token as the pattern and the remaining tokens as
/// that pattern's flags.
pub fn parse_line(line: &str) -> (r: Option<FileLineItem>)
    ensures
        (r is None) == ((line@.len() > 0 && line@[0] == '#') || spec_tokens(line@).len() == 0),
        r matches Some(item) ==> {
            &&& item.pattern@ == spec_tokens(line@)[0]
            &&& spec_line_flags_ok(spec_tokens(line@).drop_first(), item.flags)
        },
{
    let n = line.unicode_len();
    if n > 0 && line.get_char(0) == '#' {
        return None;
    }
    let tokens = split_whitespace_tokens(line);
    if tokens.len() == 0 {
        return None;
    }
    let pattern = tokens[0].clone();
    proof {
        assert(views_of(tokens@)[0] == spec_tokens(line@)[0]);
    }
    if tokens.len() == 1 {
        return Some(
            FileLineItem {
                pattern,
                flags: VanityFlags {
                    force_flags: false,
                    is_case_sensitive: false,
                    disable_fast_mode: false,
                    output_file_name: None,
                    vanity_mode: None,
                    chain: None,
                    threads: 16,
                },
            },
        );
    }
    proof {
        assert(views_of(tokens@).skip(1) =~= views_of(tokens@).drop_first());
    }
    let is_case_sensitive = has_token_from(&tokens, 1, "-c") || has_token_from(
        &tokens,
        1,
        "--case-sensitive",
    );
    let disable_fast_mode = has_token_from(&tokens, 1, "-d") || has_token_from(
        &tokens,
        1,
        "--disable-fast",
    );

    let chain = if has_token_from(&tokens, 1, "--eth") {
        Some(Chain::Ethereum)
    } else if has_token_from(&tokens, 1, "--sol") {
        Some(Chain::Solana)
    } else if has_token_from(&tokens, 1, "--btc") {
        Some(Chain::Bitcoin)
    } else {
        None
    };

    let vanity_mode = if has_token_from(&tokens, 1, "-r") || has_token_from(&tokens, 1, "--regex") {
        Some(VanityMode::Regex)
    } else if has_token_from(&tokens, 1, "-a") || has_token_from(&tokens, 1, "--anywhere") {
        Some(VanityMode::Anywhere)
    } else if has_token_from(&tokens, 1, "-s") || has_token_from(&tokens, 1, "--suffix") {
        Some(VanityMode::Suffix)
    } else if has_token_from(&tokens, 1, "-p") || has_token_from(&tokens, 1, "--prefix") {
        Some(VanityMode::Prefix)
    } else {
        None
    };

    let output_file_name = scan_output_name(&tokens);

    Some(
        FileLineItem {
            pattern,
            flags: VanityFlags {
                force_flags: false,
                is_case_sensitive,
                disable_fast_mode,
                output_file_name,
                vanity_mode,
                chain,
                threads: 0,
            },
        },
    )
}

} // verus!
