//! The guard against a directory that was written for another database.

use vstd::prelude::*;

verus! {

/// The directory was generated for the provider `expected`, and the engine is
/// connected to `actual`.
#[derive(Debug, Clone, PartialEq, Eq)]
pub struct ProviderMismatch {
    pub expected: String,
    pub actual: String,
}

/// A `ProviderMismatch` as contracts see it.
pub struct MismatchView {
    pub expected: Seq<char>,
    pub actual: Seq<char>,
}

impl View for ProviderMismatch {
    type V = MismatchView;

    open spec fn view(&self) -> MismatchView {
        MismatchView { expected: self.expected@, actual: self.actual@ }
    }
}

/// Whether a directory with the provider marker `marker` may be applied to a
/// database of `provider`: it may where it carries no marker, or that very one.
pub open spec fn provider_admitted(marker: Option<Seq<char>>, provider: Seq<char>) -> bool {
    match marker {
        Some(recorded) => recorded == provider,
        None => true,
    }
}

/// Compares the provider that the directory was generated for with the one in
/// use. Nothing is touched: a mismatch is found before the lock is taken.
pub fn error_on_changed_provider(marker: &Option<String>, provider: &String) -> (outcome: Result<
    (),
    ProviderMismatch,
>)
    ensures
        outcome is Ok <==> provider_admitted(
            match *marker {
                Some(recorded) => Some(recorded@),
                None => None,
            },
            provider@,
        ),
        outcome matches Err(mismatch) ==> *marker matches Some(recorded) && mismatch@ == (
        MismatchView { expected: recorded@, actual: provider@ }),
{
    match marker {
        Some(recorded) => {
            if *recorded == *provider {
                Ok(())
            } else {
                Err(ProviderMismatch { expected: recorded.clone(), actual: provider.clone() })
            }
        },
        None => Ok(()),
    }
}

} // verus!
