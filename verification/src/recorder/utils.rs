//! Looking up encoders.
use crate::error::HResult;
use crate::types::Guid;
use vstd::prelude::*;

verus! {

/// The identifier of the first encoder with a name.
pub open spec fn guid_named(encoders: Seq<(String, Guid)>, name: Seq<char>) -> Option<Guid>
    decreases encoders.len(),
{
    if encoders.len() == 0 {
        None
    } else if encoders[0].0@ == name {
        Some(encoders[0].1)
    } else {
        guid_named(encoders.drop_first(), name)
    }
}

/// The identifier of the encoder with a name. There is none where no name is
/// asked for, or no encoder has it; the encoders are listed only where a name
/// is asked for.
pub fn get_encoder_guid<F: FnOnce() -> Result<Vec<(String, Guid)>, HResult>>(
    requested_encoder: Option<&str>,
    available: F,
) -> (r: Result<Option<Guid>, HResult>)
    requires
        requested_encoder is Some ==> available.requires(()),
    ensures
        match requested_encoder {
            None => r == Ok::<Option<Guid>, HResult>(None),
            Some(name) => exists|listed: Result<Vec<(String, Guid)>, HResult>| #[trigger]
                available.ensures((), listed) && match listed {
                    Ok(encoders) => r == Ok::<Option<Guid>, HResult>(
                        guid_named(encoders@, name@),
                    ),
                    Err(code) => r == Err::<Option<Guid>, HResult>(code),
                },
        },
{
    let name = match requested_encoder {
        Some(name) => name.to_owned(),
        None => {
            return Ok(None);
        },
    };
    let listed = available();
    let encoders = match listed {
        Ok(encoders) => encoders,
        Err(code) => {
            return Err(code);
        },
    };
    assert(encoders@.skip(0) =~= encoders@);
    for i in 0..encoders.len()
        invariant
            guid_named(encoders@.skip(i as int), name@) == guid_named(encoders@, name@),
            listed == Ok::<Vec<(String, Guid)>, HResult>(encoders),
            available.ensures((), listed),
            requested_encoder matches Some(wanted) && wanted@ == name@,
    {
        if encoders[i].0 == name {
            return Ok(Some(encoders[i].1));
        }
        assert(encoders@.skip(i as int).drop_first() =~= encoders@.skip(i + 1));
    }
    Ok(None)
}

/// The identifier is that of the first encoder with the name, and there is none
/// only where no encoder has it.
pub proof fn first_encoder_by_name_counts(encoders: Seq<(String, Guid)>, name: Seq<char>)
    ensures
        match guid_named(encoders, name) {
            Some(guid) => exists|i: int|
                {
                    &&& 0 <= i < encoders.len()
                    &&& (#[trigger] encoders[i]).0@ == name
                    &&& encoders[i].1 == guid
                    &&& forall|k: int| 0 <= k < i ==> (#[trigger] encoders[k]).0@ != name
                },
            None => forall|k: int| 0 <= k < encoders.len() ==> (#[trigger] encoders[k]).0@ != name,
        },
    decreases encoders.len(),
{
    if encoders.len() > 0 && encoders[0].0@ != name {
        let rest = encoders.drop_first();
        first_encoder_by_name_counts(rest, name);
        match guid_named(encoders, name) {
            Some(guid) => {
                let i = choose|i: int|
                    {
                        &&& 0 <= i < rest.len()
                        &&& (#[trigger] rest[i]).0@ == name
                        &&& rest[i].1 == guid
                        &&& forall|k: int| 0 <= k < i ==> (#[trigger] rest[k]).0@ != name
                    };
                assert(encoders[i + 1] == rest[i]);
                assert forall|k: int| 0 <= k < i + 1 implies (#[trigger] encoders[k]).0@ != name by {
                    if k > 0 {
                        assert(rest[k - 1] == encoders[k]);
                    }
                }
            },
            None => {
                assert forall|k: int| 0 <= k < encoders.len() implies (
                #[trigger] encoders[k]).0@ != name by {
                    if k > 0 {
                        assert(rest[k - 1] == encoders[k]);
                    }
                }
            },
        }
    } else if encoders.len() > 0 {
        assert(encoders[0].0@ == name);
    }
}

} // verus!
