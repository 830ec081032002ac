//! Search configuration: the flags a caller assembles from its command
//! line, and their combination with per-pattern flags from an input file.

use vstd::prelude::*;

use crate::vanity_addr_generator::chain::Chain;
use crate::vanity_addr_generator::vanity_addr::VanityMode;

verus! {

/// The configuration of one vanity search.
#[derive(Debug, Clone)]
pub struct VanityFlags {
    /// How many worker threads the caller plans with.
    pub threads: usize,
    /// The output file to append results to, if any.
    pub output_file_name: Option<String>,
    /// Whether these flags override per-pattern flags from a file.
    pub force_flags: bool,
    /// Whether matching is case-sensitive.
    pub is_case_sensitive: bool,
    /// Whether fast mode, the pattern-length guardrail, is off.
    pub disable_fast_mode: bool,
    /// The matching mode, where one was chosen.
    pub vanity_mode: Option<VanityMode>,
    /// The chain, where one was chosen.
    pub chain: Option<Chain>,
}

/// Where the patterns of a run come from.
#[derive(Debug)]
pub enum PatternsSource {
    /// One pattern, given directly.
    SingleString(String),
    /// A file of patterns, given by its path.
    InputFile(String),
}

/// The raw option values a command line parser hands over: one flag per
/// switch, and the textual values as they were typed.
#[derive(Debug, Clone)]
pub struct CliOptions {
    /// The `--btc` switch.
    pub bitcoin: bool,
    /// The `--eth` switch.
    pub ethereum: bool,
    /// The `--sol` switch.
    pub solana: bool,
    /// The `-p` switch.
    pub prefix: bool,
    /// The `-s` switch.
    pub suffix: bool,
    /// The `-a` switch.
    pub anywhere: bool,
    /// The `-r` switch.
    pub regex: bool,
    /// The `-f` switch.
    pub force_flags: bool,
    /// The `-c` switch.
    pub case_sensitive: bool,
    /// The `-d` switch.
    pub disable_fast_mode: bool,
    /// The `-t` value, as typed.
    pub threads: Option<String>,
    /// The `-o` value.
    pub output_file: Option<String>,
    /// The `-i` value.
    pub input_file: Option<String>,
    /// The positional pattern.
    pub string: Option<String>,
}

/// The numeric value of a digit string, most significant digit first.
pub open spec fn spec_digits_value(s: Seq<char>) -> int
    decreases s.len(),
{
    if s.len() == 0 {
        0
    } else {
        spec_digits_value(s.drop_last()) * 10 + (s.last() as int - '0' as int)
    }
}

/// Whether a string is one or more ASCII digits.
pub open spec fn spec_all_digits(s: Seq<char>) -> bool {
    s.len() > 0 && forall|i: int| 0 <= i < s.len() ==> '0' <= #[trigger] s[i] && s[i] <= '9'
}

/// What parsing an unsigned decimal the way std does yields: an optional
/// leading '+', then digits only, and the value must fit.
pub open spec fn spec_parse_usize(s: Seq<char>) -> Option<int> {
    let digits = if s.len() > 0 && s[0] == '+' {
        s.drop_first()
    } else {
        s
    };
    if spec_all_digits(digits) && spec_digits_value(digits) <= usize::MAX {
        Some(spec_digits_value(digits))
    } else {
        None
    }
}

/// A digit string's value only grows as more digits are appended.
proof fn lemma_digits_value_take_le(s: Seq<char>, j: int)
    requires
        spec_all_digits(s),
        0 <= j <= s.len(),
    ensures
        spec_digits_value(s.take(j)) <= spec_digits_value(s),
        spec_digits_value(s) >= 0,
    decreases s.len() - j,
{
    if j == s.len() {
        assert(s.take(j) =~= s);
        lemma_digits_value_nonneg(s);
    } else {
        lemma_digits_value_take_le(s, j + 1);
        assert(s.take(j + 1).drop_last() =~= s.take(j));
        assert(s.take(j + 1).last() == s[j]);
        lemma_digits_value_nonneg(s.take(j));
    }
}

/// A digit string's value is never negative.
proof fn lemma_digits_value_nonneg(s: Seq<char>)
    requires
        forall|i: int| 0 <= i < s.len() ==> '0' <= #[trigger] s[i] && s[i] <= '9',
    ensures
        spec_digits_value(s) >= 0,
    decreases s.len(),
{
    if s.len() > 0 {
        lemma_digits_value_nonneg(s.drop_last());
    }
}

/// Parses an unsigned decimal the way std does: an optional leading '+',
/// then one or more digits, rejecting anything else and values that do
/// not fit.
pub fn parse_usize(s: &str) -> (r: Option<usize>)
    ensures
        match r {
            Some(v) => spec_parse_usize(s@) == Some(v as int),
            None => spec_parse_usize(s@) is None,
        },
{
    let n = s.unicode_len();
    let mut i: usize = 0;
    if n > 0 && s.get_char(0) == '+' {
        i = 1;
    }
    let ghost digits: Seq<char> = if s@.len() > 0 && s@[0] == '+' {
        s@.drop_first()
    } else {
        s@
    };
    let ghost offset: int = i as int;
    proof {
        assert(s@.skip(0) =~= s@);
        if s@.len() > 0 && s@[0] == '+' {
            assert(s@.drop_first() =~= s@.skip(1));
        }
        assert(digits.take(0) =~= Seq::<char>::empty());
    }
    if i >= n {
        // No digits at all.
        proof {
            assert(digits.len() == 0);
        }
        return None;
    }
    let mut value: usize = 0;
    while i < n
        invariant
            n == s@.len(),
            offset <= i <= n,
            offset == 0 || offset == 1,
            digits == (if s@.len() > 0 && s@[0] == '+' {
                s@.drop_first()
            } else {
                s@
            }),
            digits == s@.skip(offset),
            digits.len() == n - offset,
            forall|j: int| 0 <= j < i - offset ==> '0' <= #[trigger] digits[j] && digits[j] <= '9',
            value == spec_digits_value(digits.take(i - offset)),
        decreases n - i,
    {
        let c = s.get_char(i);
        proof {
            assert(digits[i - offset] == s@[i as int]);
        }
        if !('0' <= c && c <= '9') {
            proof {
                assert(!spec_all_digits(digits));
            }
            return None;
        }
        let d: usize = ((c as u32) - ('0' as u32)) as usize;
        let v10 = match value.checked_mul(10) {
            Some(v) => v,
            None => {
                proof {
                    overflow_digits_exceed(digits, i - offset, d as int, value as int);
                }
                return None;
            },
        };
        let next = match v10.checked_add(d) {
            Some(v) => v,
            None => {
                proof {
                    overflow_digits_exceed(digits, i - offset, d as int, value as int);
                }
                return None;
            },
        };
        i += 1;
        value = next;
        proof {
            assert(digits.take(i - offset).drop_last() =~= digits.take(i - offset - 1));
            assert(digits.take(i - offset).last() == digits[i - offset - 1]);
        }
    }
    proof {
        assert(digits.take(n - offset) =~= digits);
    }
    Some(value)
}

/// When one more digit no longer fits, the whole digit string's value no
/// longer fits either.
proof fn overflow_digits_exceed(digits: Seq<char>, j: int, d: int, value: int)
    requires
        0 <= j < digits.len(),
        '0' <= digits[j] && digits[j] <= '9',
        d == digits[j] as int - '0' as int,
        value == spec_digits_value(digits.take(j)),
        value * 10 + d > usize::MAX,
    ensures
        !(spec_all_digits(digits) && spec_digits_value(digits) <= usize::MAX),
{
    if spec_all_digits(digits) {
        assert(digits.take(j + 1).drop_last() =~= digits.take(j));
        assert(digits.take(j + 1).last() == digits[j]);
        assert(spec_digits_value(digits.take(j + 1)) == value * 10 + d);
        lemma_digits_value_take_le(digits, j + 1);
    }
}

/// Builds the search configuration from raw command line option values,
/// and picks where the patterns come from.
pub fn parse_cli(options: CliOptions) -> (r: (VanityFlags, PatternsSource))
    ensures
        r.0.chain == Some(
            if options.ethereum {
                Chain::Ethereum
            } else if options.solana {
                Chain::Solana
            } else {
                Chain::Bitcoin
            },
        ),
        r.0.vanity_mode == Some(
            if options.regex {
                VanityMode::Regex
            } else if options.anywhere {
                VanityMode::Anywhere
            } else if options.suffix {
                VanityMode::Suffix
            } else {
                VanityMode::Prefix
            },
        ),
        r.0.threads as int == (match options.threads {
            Some(t) => match spec_parse_usize(t@) {
                Some(v) => v,
                None => 16,
            },
            None => 16,
        }),
        r.0.force_flags == options.force_flags,
        r.0.is_case_sensitive == options.case_sensitive,
        r.0.disable_fast_mode == options.disable_fast_mode,
        r.0.output_file_name == options.output_file,
        match r.1 {
            PatternsSource::InputFile(path) => options.input_file == Some(path),
            PatternsSource::SingleString(s) => options.input_file is None && (match options.string {
                Some(given) => s == given,
                None => s@ == Seq::<char>::empty(),
            }),
        },
{
    let chain = if options.ethereum {
        Some(Chain::Ethereum)
    } else if options.solana {
        Some(Chain::Solana)
    } else {
        Some(Chain::Bitcoin)
    };

    let vanity_mode = if options.regex {
        Some(VanityMode::Regex)
    } else if options.anywhere {
        Some(VanityMode::Anywhere)
    } else if options.suffix {
        Some(VanityMode::Suffix)
    } else {
        Some(VanityMode::Prefix)
    };

    let threads: usize = match &options.threads {
        Some(t) => match parse_usize(t.as_str()) {
            Some(v) => v,
            None => 16,
        },
        None => 16,
    };

    let cli_flags = VanityFlags {
        force_flags: options.force_flags,
        is_case_sensitive: options.case_sensitive,
        disable_fast_mode: options.disable_fast_mode,
        output_file_name: options.output_file,
        vanity_mode,
        chain,
        threads,
    };

    match options.input_file {
        Some(path) => (cli_flags, PatternsSource::InputFile(path)),
        None => {
            let string = match options.string {
                Some(given) => given,
                None => String::new(),
            };
            (cli_flags, PatternsSource::SingleString(string))
        },
    }
}

impl VanityFlags {
    /// Combines these flags with per-pattern flags from a file: with
    /// `force_flags` set these flags win whole; otherwise the file's
    /// flags win where they say something.
    pub fn unify(&self, file_flags: &VanityFlags) -> (r: VanityFlags)
        ensures
            self.force_flags ==> r == *self,
            !self.force_flags ==> {
                &&& r.threads == self.threads
                &&& r.output_file_name == (if file_flags.output_file_name is Some {
                    file_flags.output_file_name
                } else {
                    self.output_file_name
                })
                &&& r.force_flags == self.force_flags
                &&& r.is_case_sensitive == file_flags.is_case_sensitive
                &&& r.disable_fast_mode == file_flags.disable_fast_mode
                &&& r.vanity_mode == (if file_flags.vanity_mode is Some {
                    file_flags.vanity_mode
                } else {
                    self.vanity_mode
                })
                &&& r.chain == (if file_flags.chain is Some {
                    file_flags.chain
                } else {
                    self.chain
                })
            },
    {
        if self.force_flags {
            VanityFlags {
                threads: self.threads,
                output_file_name: match &self.output_file_name {
                    Some(name) => Some(name.clone()),
                    None => None,
                },
                force_flags: self.force_flags,
                is_case_sensitive: self.is_case_sensitive,
                disable_fast_mode: self.disable_fast_mode,
                vanity_mode: self.vanity_mode,
                chain: self.chain,
            }
        } else {
            VanityFlags {
                threads: self.threads,
                output_file_name: match &file_flags.output_file_name {
                    Some(name) => Some(name.clone()),
                    None => match &self.output_file_name {
                        Some(name) => Some(name.clone()),
                        None => None,
                    },
                },
                force_flags: self.force_flags,
                is_case_sensitive: file_flags.is_case_sensitive,
                disable_fast_mode: file_flags.disable_fast_mode,
                vanity_mode: match file_flags.vanity_mode {
                    Some(mode) => Some(mode),
                    None => self.vanity_mode,
                },
                chain: match file_flags.chain {
                    Some(chain) => Some(chain),
                    None => self.chain,
                },
            }
        }
    }
}

} // verus!
