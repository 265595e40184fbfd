//! The interactive prompt's decision rules. Reading a line from the terminal
//! happens outside the library; this module decides, from the raw answer,
//! what value is stored and whether the operator must be asked again.

use vstd::prelude::*;
use vstd::string::StrSliceExecFns;
use vstd::string::StringExecFns;

verus! {

/// Shortest raw answer that counts as an answer at all; anything shorter is
/// treated as a fragment and has the default prepended.
pub const MIN_INPUT_LEN: usize = 3;

/// The value stored after one round of default injection: a too-short answer
/// gets the default prepended (the answer is kept as a trailing fragment), a
/// long enough answer is kept as it is.
pub open spec fn spec_resolve(v: Seq<char>, d: Seq<char>) -> Seq<char> {
    if v.len() < MIN_INPUT_LEN {
        d + v
    } else {
        v
    }
}

/// Whether the value stored after default injection satisfies the prompt: a
/// required field must have reached the minimal length, an optional field is
/// accepted as it is.
pub open spec fn spec_accepted(v: Seq<char>, required: bool) -> bool {
    !(required && v.len() < MIN_INPUT_LEN)
}

/// Applies one round of the prompt's rules to the raw answer in `var`: if the
/// answer is shorter than [`MIN_INPUT_LEN`], the default (empty when absent)
/// is prepended; the result is accepted unless the field is required and the
/// stored value is still too short, in which case the operator is to be
/// asked again with the stored value kept.
pub fn input_data(var: &mut String, required: bool, def: Option<&str>) -> (accepted: bool)
    ensures
        final(var)@ == spec_resolve(old(var)@, match def {
            Some(d) => d@,
            None => Seq::<char>::empty(),
        }),
        accepted == spec_accepted(final(var)@, required),
{
    let defaulty: &str = match def {
        Some(d) => d,
        None => "",
    };
    proof {
        reveal_strlit("");
        assert(""@ =~= Seq::<char>::empty());
    }
    if var.as_str().unicode_len() < MIN_INPUT_LEN {
        let mut injected = String::from_str(defaulty);
        injected.append(var.as_str());
        *var = injected;
    }
    !(required && var.as_str().unicode_len() < MIN_INPUT_LEN)
}

/// The laws of default injection: a too-short answer ends up with the
/// default in front and the answer kept behind it; with no default and no
/// requirement, a too-short answer is stored unchanged and accepted.
pub proof fn lemma_default_injection(v: Seq<char>, d: Seq<char>)
    requires
        v.len() < MIN_INPUT_LEN,
    ensures
        spec_resolve(v, d).len() == d.len() + v.len(),
        spec_resolve(v, d).subrange(0, d.len() as int) == d,
        spec_resolve(v, d).subrange(d.len() as int, (d.len() + v.len()) as int) == v,
        spec_resolve(v, Seq::<char>::empty()) == v,
        spec_accepted(spec_resolve(v, Seq::<char>::empty()), false),
{
    assert(spec_resolve(v, d).subrange(0, d.len() as int) =~= d);
    assert(spec_resolve(v, d).subrange(d.len() as int, (d.len() + v.len()) as int) =~= v);
    assert(spec_resolve(v, Seq::<char>::empty()) =~= v);
}

} // verus!
