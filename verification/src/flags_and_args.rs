//! The argument bundle an older command line layer hands around: the
//! shared run options, and the per-pattern options derived from them.

use vstd::prelude::*;

use crate::flags::VanityFlags;
use crate::vanity_addr_generator::vanity_addr::VanityMode;

verus! {

/// Everything one run was started with: the patterns, their per-pattern
/// flags, and the shared options.
pub struct CliArgs {
    /// How many worker threads the caller plans with.
    pub threads: u64,
    /// The patterns to search for, in order.
    pub strings: Vec<String>,
    /// The per-pattern flags, one entry per pattern.
    pub flags: Vec<VanityFlags>,
    /// Whether the shared options override the per-pattern flags.
    pub force_flags: bool,
    /// Whether matching is case-sensitive.
    pub is_case_sensitive: bool,
    /// Whether fast mode is off.
    pub is_fast_disabled: bool,
    /// The output file name; empty when results go to the console.
    pub output_file_name: String,
    /// The matching mode.
    pub vanity_mode: VanityMode,
}

impl CliArgs {
    /// Bundles run options; the boundary layer that reads the command
    /// line builds one of these.
    pub fn new(
        threads: u64,
        strings: Vec<String>,
        flags: Vec<VanityFlags>,
        force_flags: bool,
        is_case_sensitive: bool,
        is_fast_disabled: bool,
        output_file_name: String,
        vanity_mode: VanityMode,
    ) -> (r: CliArgs)
        ensures
            r.threads == threads,
            r.strings == strings,
            r.flags == flags,
            r.force_flags == force_flags,
            r.is_case_sensitive == is_case_sensitive,
            r.is_fast_disabled == is_fast_disabled,
            r.output_file_name == output_file_name,
            r.vanity_mode == vanity_mode,
    {
        CliArgs {
            threads,
            strings,
            flags,
            force_flags,
            is_case_sensitive,
            is_fast_disabled,
            output_file_name,
            vanity_mode,
        }
    }

    /// The patterns to search for.
    pub fn get_strings(&self) -> (r: &Vec<String>)
        ensures
            r == &self.strings,
    {
        &self.strings
    }

    /// The worker thread count.
    pub fn get_threads(&self) -> (r: u64)
        ensures
            r == self.threads,
    {
        self.threads
    }
}

/// The options that hold for one pattern of a run.
pub struct StringsArgs {
    /// Whether matching is case-sensitive.
    pub is_case_sensitive: bool,
    /// Whether fast mode is off.
    pub is_fast_disabled: bool,
    /// The output file name; empty when results go to the console.
    pub output_file_name: String,
    /// The matching mode.
    pub vanity_mode: VanityMode,
}

impl StringsArgs {
    /// Bundles per-pattern options.
    fn from(
        is_case_sensitive: bool,
        is_fast_disabled: bool,
        output_file_name: String,
        vanity_mode: VanityMode,
    ) -> (r: StringsArgs)
        ensures
            r.is_case_sensitive == is_case_sensitive,
            r.is_fast_disabled == is_fast_disabled,
            r.output_file_name == output_file_name,
            r.vanity_mode == vanity_mode,
    {
        StringsArgs { is_case_sensitive, is_fast_disabled, output_file_name, vanity_mode }
    }

    /// Takes every option from the shared run options.
    fn use_cli(cli_args: &CliArgs) -> (r: StringsArgs)
        ensures
            r.is_case_sensitive == cli_args.is_case_sensitive,
            r.is_fast_disabled == cli_args.is_fast_disabled,
            r.output_file_name@ == cli_args.output_file_name@,
            r.vanity_mode == cli_args.vanity_mode,
    {
        StringsArgs {
            is_case_sensitive: cli_args.is_case_sensitive,
            is_fast_disabled: cli_args.is_fast_disabled,
            output_file_name: cli_args.output_file_name.clone(),
            vanity_mode: cli_args.vanity_mode,
        }
    }

    /// The matching mode.
    pub fn get_vanity_mode(&self) -> (r: VanityMode)
        ensures
            r == self.vanity_mode,
    {
        self.vanity_mode
    }

    /// Whether matching is case-sensitive.
    pub fn get_case_sensitivity(&self) -> (r: bool)
        ensures
            r == self.is_case_sensitive,
    {
        self.is_case_sensitive
    }

    /// The output file name.
    pub fn get_output_file_name(&self) -> (r: &String)
        ensures
            r == &self.output_file_name,
    {
        &self.output_file_name
    }

    /// Whether fast mode is off.
    pub fn get_is_fast_mode_disabled(&self) -> (r: bool)
        ensures
            r == self.is_fast_disabled,
    {
        self.is_fast_disabled
    }
}

/// The options that hold for the pattern at `index`: the shared options
/// when they are forced, and otherwise the pattern's own flags where
/// they say something, falling back to the shared options.
pub fn get_strings_args(cli_args: &CliArgs, index: usize) -> (r: StringsArgs)
    requires
        cli_args.force_flags || index < cli_args.flags@.len(),
    ensures
        cli_args.force_flags ==> {
            &&& r.is_case_sensitive == cli_args.is_case_sensitive
            &&& r.is_fast_disabled == cli_args.is_fast_disabled
            &&& r.output_file_name@ == cli_args.output_file_name@
            &&& r.vanity_mode == cli_args.vanity_mode
        },
        !cli_args.force_flags ==> {
            let flags = cli_args.flags@[index as int];
            &&& r.vanity_mode == (match flags.vanity_mode {
                Some(mode) => mode,
                None => cli_args.vanity_mode,
            })
            &&& r.output_file_name@ == (match flags.output_file_name {
                Some(name) => name@,
                None => cli_args.output_file_name@,
            })
            &&& r.is_case_sensitive == (if flags.force_flags {
                flags.is_case_sensitive
            } else {
                cli_args.is_case_sensitive || flags.is_case_sensitive
            })
            &&& r.is_fast_disabled == (if flags.force_flags {
                flags.disable_fast_mode
            } else {
                cli_args.is_fast_disabled || flags.disable_fast_mode
            })
        },
{
    if cli_args.force_flags {
        StringsArgs::use_cli(cli_args)
    } else {
        let flags = &cli_args.flags[index];
        let force_flags = flags.force_flags;
        let string_vanity_mode = match flags.vanity_mode {
            Some(vanity_mode) => vanity_mode,
            None => cli_args.vanity_mode,
        };
        let string_output_file_name = match &flags.output_file_name {
            Some(output_file_name) => output_file_name.clone(),
            None => cli_args.output_file_name.clone(),
        };
        let string_is_case_sensitive = if force_flags {
            flags.is_case_sensitive
        } else {
            cli_args.is_case_sensitive || flags.is_case_sensitive
        };
        let string_is_fast_disabled = if force_flags {
            flags.disable_fast_mode
        } else {
            cli_args.is_fast_disabled || flags.disable_fast_mode
        };

        StringsArgs::from(
            string_is_case_sensitive,
            string_is_fast_disabled,
            string_output_file_name,
            string_vanity_mode,
        )
    }
}

} // verus!
