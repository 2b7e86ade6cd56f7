//! The write-once store of the two diagnostic flags.
//!
//! Each flag lives through three logical states: unset, `true`, `false`.
//! It starts unset, accepts exactly one initialization, and keeps that value
//! for the rest of its life. A read never fails: an unset flag reads as
//! `false`, so the query functions are safe to call before initialization.

use vstd::prelude::*;

verus! {

/// The abstract state of a [`FlagStore`]: each flag is either not yet
/// initialized (`None`) or pinned to the boolean it was initialized with.
pub struct FlagsView {
    pub debug: Option<bool>,
    pub verbose: Option<bool>,
}

/// A write-once holder of the "debug" and "verbose" flags.
///
/// Both flags begin unset. [`set_debug`] and [`set_verbose`] each succeed
/// exactly once; [`try_set_debug`] and [`try_set_verbose`] report a second
/// attempt as [`InitError::DoubleInitialization`] instead of requiring the
/// caller to rule it out.
pub struct FlagStore {
    debug: Option<bool>,
    verbose: Option<bool>,
}

impl View for FlagStore {
    type V = FlagsView;

    closed spec fn view(&self) -> FlagsView {
        FlagsView { debug: self.debug, verbose: self.verbose }
    }
}

/// The one way an operation on the store can fail: a flag that already
/// holds a value was asked to take another. This signals a defect in the
/// caller's startup logic, not a runtime condition to recover from.
#[derive(Clone, Copy, Debug, PartialEq, Eq, Structural)]
pub enum InitError {
    DoubleInitialization,
}

/// What a read of the debug flag yields: `true` only when the flag was
/// initialized to `true`; unset or `false` reads as `false`.
pub open spec fn spec_is_debug(v: FlagsView) -> bool {
    v.debug == Some(true)
}

/// What a read of the verbose flag yields, symmetric to [`spec_is_debug`].
pub open spec fn spec_is_verbose(v: FlagsView) -> bool {
    v.verbose == Some(true)
}

/// The store's state after the debug flag is initialized to `value`.
pub open spec fn spec_set_debug(v: FlagsView, value: bool) -> FlagsView {
    FlagsView { debug: Some(value), verbose: v.verbose }
}

/// The store's state after the verbose flag is initialized to `value`.
pub open spec fn spec_set_verbose(v: FlagsView, value: bool) -> FlagsView {
    FlagsView { debug: v.debug, verbose: Some(value) }
}

impl FlagStore {
    /// A fresh store with both flags unset.
    pub fn new() -> (store: FlagStore)
        ensures
            store@.debug is None,
            store@.verbose is None,
    {
        FlagStore { debug: None, verbose: None }
    }
}

/// Initialize the debug flag. The first call on a store succeeds and pins
/// the flag; a second call returns [`InitError::DoubleInitialization`] and
/// leaves the stored value exactly as the first call set it. The verbose
/// flag is never touched.
pub fn try_set_debug(store: &mut FlagStore, value: bool) -> (result: Result<(), InitError>)
    ensures
        old(store)@.debug is None ==> result is Ok
            && final(store)@ == spec_set_debug(old(store)@, value),
        old(store)@.debug is Some ==> result == Err::<(), InitError>(
            InitError::DoubleInitialization,
        ) && final(store)@ == old(store)@,
{
    match store.debug {
        None => {
            store.debug = Some(value);
            Ok(())
        },
        Some(_) => Err(InitError::DoubleInitialization),
    }
}

/// Initialize the verbose flag, with the same write-once contract as
/// [`try_set_debug`]. The debug flag is never touched.
pub fn try_set_verbose(store: &mut FlagStore, value: bool) -> (result: Result<(), InitError>)
    ensures
        old(store)@.verbose is None ==> result is Ok
            && final(store)@ == spec_set_verbose(old(store)@, value),
        old(store)@.verbose is Some ==> result == Err::<(), InitError>(
            InitError::DoubleInitialization,
        ) && final(store)@ == old(store)@,
{
    match store.verbose {
        None => {
            store.verbose = Some(value);
            Ok(())
        },
        Some(_) => Err(InitError::DoubleInitialization),
    }
}

/// Set the debug flag to `value`. Double initialization is a programming
/// error, ruled out here by the precondition; callers that cannot establish
/// it use [`try_set_debug`] and treat its error as fatal.
pub fn set_debug(store: &mut FlagStore, value: bool)
    requires
        old(store)@.debug is None,
    ensures
        final(store)@ == spec_set_debug(old(store)@, value),
{
    let result = try_set_debug(store, value);
    proof {
        assert(result is Ok);
    }
}

/// Set the verbose flag to `value`, symmetric to [`set_debug`].
pub fn set_verbose(store: &mut FlagStore, value: bool)
    requires
        old(store)@.verbose is None,
    ensures
        final(store)@ == spec_set_verbose(old(store)@, value),
{
    let result = try_set_verbose(store, value);
    proof {
        assert(result is Ok);
    }
}

/// Whether debug printing is enabled. Never fails and changes nothing: an
/// unset flag reads as `false`.
pub fn is_debug(store: &FlagStore) -> (enabled: bool)
    ensures
        enabled == spec_is_debug(store@),
{
    match store.debug {
        Some(b) => b,
        None => false,
    }
}

/// Whether verbose printing is enabled, symmetric to [`is_debug`].
pub fn is_verbose(store: &FlagStore) -> (enabled: bool)
    ensures
        enabled == spec_is_verbose(store@),
{
    match store.verbose {
        Some(b) => b,
        None => false,
    }
}

/// After the debug flag is initialized to `value`, a debug read yields
/// exactly `value`.
pub proof fn lemma_set_debug_then_read(v: FlagsView, value: bool)
    ensures
        spec_is_debug(spec_set_debug(v, value)) == value,
{
}

/// After the verbose flag is initialized to `value`, a verbose read yields
/// exactly `value`.
pub proof fn lemma_set_verbose_then_read(v: FlagsView, value: bool)
    ensures
        spec_is_verbose(spec_set_verbose(v, value)) == value,
{
}

/// While a flag is unset its read yields `false`, so both reads of a fresh
/// store yield `false`.
pub proof fn lemma_unset_reads_false(v: FlagsView)
    ensures
        v.debug is None ==> !spec_is_debug(v),
        v.verbose is None ==> !spec_is_verbose(v),
{
}

/// The two flags are independent: initializing one never changes the other
/// flag's state, and so never changes what a read of the other yields.
pub proof fn lemma_flags_independent(v: FlagsView, value: bool)
    ensures
        spec_set_debug(v, value).verbose == v.verbose,
        spec_is_verbose(spec_set_debug(v, value)) == spec_is_verbose(v),
        spec_set_verbose(v, value).debug == v.debug,
        spec_is_debug(spec_set_verbose(v, value)) == spec_is_debug(v),
{
}

/// Once a flag is initialized it is `Some`, so by the contracts of
/// [`try_set_debug`] and [`try_set_verbose`] every later initialization
/// attempt fails and the flag keeps the value of the first call, whatever
/// value the second attempt carried.
pub proof fn lemma_double_init_rejected(v: FlagsView, first: bool)
    ensures
        spec_set_debug(v, first).debug is Some,
        spec_is_debug(spec_set_debug(v, first)) == first,
        spec_set_verbose(v, first).verbose is Some,
        spec_is_verbose(spec_set_verbose(v, first)) == first,
{
}

} // verus!
