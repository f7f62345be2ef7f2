//! The debugging switches read from the environment.
use vstd::prelude::*;

verus! {

/// The environment variable name of a switch: its name after `GEOBACTER_`.
pub fn key(k: &str) -> (r: String)
    ensures r@ == "GEOBACTER_"@ + k@,
{
    let mut s = String::from_str("GEOBACTER_");
    s.append(k);
    s
}

/// A switch is on when its variable is set to anything but `0`.
pub open spec fn switch_on(value: Option<Seq<char>>) -> bool {
    match value {
        Some(v) => v != "0"@,
        None => false,
    }
}

/// Whether a switch whose variable holds `value` (`None` when unset or not
/// unicode) is on.
pub fn flag_value(value: &Option<String>) -> (r: bool)
    ensures r == switch_on(match value { Some(v) => Some(v@), None => None }),
{
    match value {
        Some(v) => {
            let zero = String::from_str("0");
            !(*v == zero)
        },
        None => false,
    }
}

/// The debugging switches, read once when a context is created.
#[derive(Clone, Copy, Debug)]
pub struct DebugFlags {
    use_llc: bool,
    opt_remarks: bool,
}

impl DebugFlags {
    /// Whether codegen runs `llc` itself.
    pub closed spec fn use_llc_spec(&self) -> bool { self.use_llc }

    /// Whether optimization remarks are printed.
    pub closed spec fn opt_remarks_spec(&self) -> bool { self.opt_remarks }

    /// The switches, from the values of `GEOBACTER_USE_LLC` and
    /// `GEOBACTER_OPT_REMARKS`.
    pub fn initialize(use_llc_var: &Option<String>, opt_remarks_var: &Option<String>) -> (r: DebugFlags)
        ensures
            r.use_llc_spec() == switch_on(match use_llc_var { Some(v) => Some(v@), None => None }),
            r.opt_remarks_spec() == switch_on(match opt_remarks_var { Some(v) => Some(v@), None => None }),
    {
        DebugFlags { use_llc: flag_value(use_llc_var), opt_remarks: flag_value(opt_remarks_var) }
    }
}

/// Whether codegen runs `llc` itself.
pub fn use_llc(flags: &DebugFlags) -> (r: bool)
    ensures r == flags.use_llc_spec(),
{
    flags.use_llc
}

/// Whether optimization remarks are printed.
pub fn print_opt_remarks(flags: &DebugFlags) -> (r: bool)
    ensures r == flags.opt_remarks_spec(),
{
    flags.opt_remarks
}

} // verus!
