//! Control-flow-integrity hardening: the optimization barrier, the
//! failure-cause taxonomy and its reported-code mapping, and the
//! dual-evaluated hardened assertion family.
//!
//! The adversary model is physical fault injection: an attacker who can
//! corrupt one instruction or one branch outcome. Every security-critical
//! comparison is therefore evaluated twice, with a timing perturbation
//! between the evaluations and the operands of the second pass routed
//! through an optimization barrier, so that the compiler cannot merge the
//! two passes and a single glitch cannot bypass both.
//!
//! Verified code never diverges, so a failed check here reports its cause
//! as an `Err` value; the surrounding firmware owns the divergent fatal
//! path and hands the cause's reported code to its never-returning handler.

use vstd::prelude::*;
use vstd::std_specs::cmp::PartialEqSpec;
use vstd::std_specs::cmp::PartialOrdSpec;
use vstd::std_specs::cmp::PartialOrdIs;
use core::marker::PhantomData;

verus! {

/// The cause of a control-flow-integrity violation.
///
/// A value of this type is created at the point a check fails and is meant
/// to be consumed exactly once by the fatal path; it carries no payload
/// beyond its tag.
#[derive(Debug, Clone, Copy, PartialEq, Eq, Structural)]
pub enum CfiPanicInfo {
    /// The counter's stored encoding failed to decode.
    CounterCorrupt,
    /// The counter ran past its upper bound.
    CounterOverflow,
    /// The counter ran past its lower bound.
    CounterUnderflow,
    /// The counter's redundant copies disagree.
    CounterMismatch,
    /// A hardened equality assertion failed.
    AssertEqFail,
    /// A hardened inequality assertion failed.
    AssertNeFail,
    /// A hardened greater-than assertion failed.
    AssertGtFail,
    /// A hardened less-than assertion failed.
    AssertLtFail,
    /// A hardened greater-or-equal assertion failed.
    AssertGeFail,
    /// A hardened less-or-equal assertion failed.
    AssertLeFail,
    /// The random number source failed.
    TrngError,
    /// A match arm thought unreachable was taken.
    UnexpectedMatchBranch,
    /// Any failure not otherwise classified.
    UnknownError,
}

/// Reported code for a failure that has no dedicated code of its own.
pub const CFI_PANIC_UNKNOWN: u32 = 0x01040050;

/// Reported code for a corrupt counter encoding.
pub const CFI_PANIC_COUNTER_CORRUPT: u32 = 0x01040051;

/// Reported code for a counter overflow.
pub const CFI_PANIC_COUNTER_OVERFLOW: u32 = 0x01040052;

/// Reported code for a counter underflow.
pub const CFI_PANIC_COUNTER_UNDERFLOW: u32 = 0x01040053;

/// Reported code for a counter whose redundant copies disagree.
pub const CFI_PANIC_COUNTER_MISMATCH: u32 = 0x01040054;

/// Reported code for a failed hardened equality assertion.
pub const CFI_PANIC_ASSERT_EQ_FAILURE: u32 = 0x01040055;

/// Reported code for a failed hardened inequality assertion.
pub const CFI_PANIC_ASSERT_NE_FAILURE: u32 = 0x01040056;

/// Reported code for a failed hardened greater-than assertion.
pub const CFI_PANIC_ASSERT_GT_FAILURE: u32 = 0x01040057;

/// Reported code for a failed hardened less-than assertion.
pub const CFI_PANIC_ASSERT_LT_FAILURE: u32 = 0x01040058;

/// Reported code for a failed hardened greater-or-equal assertion.
pub const CFI_PANIC_ASSERT_GE_FAILURE: u32 = 0x01040059;

/// Reported code for a failed hardened less-or-equal assertion.
pub const CFI_PANIC_ASSERT_LE_FAILURE: u32 = 0x0104005A;

/// Reported code for a random-number-source failure.
pub const CFI_PANIC_TRNG_FAILURE: u32 = 0x0104005B;

/// The stable numeric identifier under which a failure cause is reported
/// to the fatal handler and to any host-visible error surface.
#[derive(Debug, Clone, Copy, PartialEq, Eq, Structural)]
pub struct ReportedErrorCode {
    pub code: u32,
}

/// The code that reports `info`: a total mapping. Causes with no dedicated
/// code fall through to `CFI_PANIC_UNKNOWN`, never to a failure of the
/// mapping itself.
pub open spec fn spec_error_code(info: CfiPanicInfo) -> u32 {
    match info {
        CfiPanicInfo::CounterCorrupt => CFI_PANIC_COUNTER_CORRUPT,
        CfiPanicInfo::CounterOverflow => CFI_PANIC_COUNTER_OVERFLOW,
        CfiPanicInfo::CounterUnderflow => CFI_PANIC_COUNTER_UNDERFLOW,
        CfiPanicInfo::CounterMismatch => CFI_PANIC_COUNTER_MISMATCH,
        CfiPanicInfo::AssertEqFail => CFI_PANIC_ASSERT_EQ_FAILURE,
        CfiPanicInfo::AssertNeFail => CFI_PANIC_ASSERT_NE_FAILURE,
        CfiPanicInfo::AssertGtFail => CFI_PANIC_ASSERT_GT_FAILURE,
        CfiPanicInfo::AssertLtFail => CFI_PANIC_ASSERT_LT_FAILURE,
        CfiPanicInfo::AssertGeFail => CFI_PANIC_ASSERT_GE_FAILURE,
        CfiPanicInfo::AssertLeFail => CFI_PANIC_ASSERT_LE_FAILURE,
        CfiPanicInfo::TrngError => CFI_PANIC_TRNG_FAILURE,
        _ => CFI_PANIC_UNKNOWN,
    }
}

impl From<CfiPanicInfo> for ReportedErrorCode {
    fn from(info: CfiPanicInfo) -> (r: ReportedErrorCode) {
        match info {
            CfiPanicInfo::CounterCorrupt => ReportedErrorCode { code: CFI_PANIC_COUNTER_CORRUPT },
            CfiPanicInfo::CounterOverflow => ReportedErrorCode { code: CFI_PANIC_COUNTER_OVERFLOW },
            CfiPanicInfo::CounterUnderflow => ReportedErrorCode {
                code: CFI_PANIC_COUNTER_UNDERFLOW,
            },
            CfiPanicInfo::CounterMismatch => ReportedErrorCode { code: CFI_PANIC_COUNTER_MISMATCH },
            CfiPanicInfo::AssertEqFail => ReportedErrorCode { code: CFI_PANIC_ASSERT_EQ_FAILURE },
            CfiPanicInfo::AssertNeFail => ReportedErrorCode { code: CFI_PANIC_ASSERT_NE_FAILURE },
            CfiPanicInfo::AssertGtFail => ReportedErrorCode { code: CFI_PANIC_ASSERT_GT_FAILURE },
            CfiPanicInfo::AssertLtFail => ReportedErrorCode { code: CFI_PANIC_ASSERT_LT_FAILURE },
            CfiPanicInfo::AssertGeFail => ReportedErrorCode { code: CFI_PANIC_ASSERT_GE_FAILURE },
            CfiPanicInfo::AssertLeFail => ReportedErrorCode { code: CFI_PANIC_ASSERT_LE_FAILURE },
            CfiPanicInfo::TrngError => ReportedErrorCode { code: CFI_PANIC_TRNG_FAILURE },
            _ => ReportedErrorCode { code: CFI_PANIC_UNKNOWN },
        }
    }
}

impl vstd::std_specs::convert::FromSpecImpl<CfiPanicInfo> for ReportedErrorCode {
    open spec fn obeys_from_spec() -> bool {
        true
    }

    open spec fn from_spec(info: CfiPanicInfo) -> ReportedErrorCode {
        ReportedErrorCode { code: spec_error_code(info) }
    }
}

/// Law: the cause-to-code mapping is total and deterministic. Every cause
/// resolves to one of the defined reported codes — the mapping itself never
/// fails — and the causes without a dedicated code (an unexpected match
/// branch, an unclassified error) share the designated unknown code.
pub proof fn lemma_error_code_total(info: CfiPanicInfo)
    ensures
        spec_error_code(info) == CFI_PANIC_UNKNOWN || spec_error_code(info)
            == CFI_PANIC_COUNTER_CORRUPT || spec_error_code(info) == CFI_PANIC_COUNTER_OVERFLOW
            || spec_error_code(info) == CFI_PANIC_COUNTER_UNDERFLOW || spec_error_code(info)
            == CFI_PANIC_COUNTER_MISMATCH || spec_error_code(info) == CFI_PANIC_ASSERT_EQ_FAILURE
            || spec_error_code(info) == CFI_PANIC_ASSERT_NE_FAILURE || spec_error_code(info)
            == CFI_PANIC_ASSERT_GT_FAILURE || spec_error_code(info) == CFI_PANIC_ASSERT_LT_FAILURE
            || spec_error_code(info) == CFI_PANIC_ASSERT_GE_FAILURE || spec_error_code(info)
            == CFI_PANIC_ASSERT_LE_FAILURE || spec_error_code(info) == CFI_PANIC_TRNG_FAILURE,
        info == CfiPanicInfo::UnexpectedMatchBranch || info == CfiPanicInfo::UnknownError
            ==> spec_error_code(info) == CFI_PANIC_UNKNOWN,
{
}

/// Identity whose result the optimizer must treat as opaque.
///
/// Relies on core::hint::black_box: documented as an identity function
/// that limits, as far as the backend permits, the compiler's ability to
/// reason about the value passing through it.
#[verifier::external_body]
fn opaque_identity<T>(val: T) -> (r: T)
    ensures
        r == val,
{
    core::hint::black_box(val)
}

/// An optimization barrier for values of type `T`: `launder` returns its
/// input unchanged, but the compiler may not treat the output as
/// interchangeable with the input, so a comparison repeated across the
/// barrier cannot be deduplicated away.
pub trait LaunderTrait<T> {
    fn launder(&self, val: T) -> (r: T)
        ensures
            r == val,
    {
        opaque_identity(val)
    }
}

/// Carrier for the per-type choice of barrier strategy.
pub struct Launder<T> {
    _val: PhantomData<T>,
}

impl LaunderTrait<u32> for Launder<u32> {
}

impl LaunderTrait<bool> for Launder<bool> {
}

impl LaunderTrait<usize> for Launder<usize> {
}

impl<const N: usize, T> LaunderTrait<[T; N]> for Launder<[T; N]> {
}

impl<'a, const N: usize, T> LaunderTrait<&'a [T; N]> for Launder<&'a [T; N]> {
}

impl LaunderTrait<Option<u32>> for Launder<Option<u32>> {
}

impl LaunderTrait<CfiPanicInfo> for Launder<CfiPanicInfo> {
}

/// Launders a value through the optimization barrier: the result is the
/// input, but the compiler cannot prove it so.
pub fn cfi_launder<T>(val: T) -> (r: T) where Launder<T>: LaunderTrait<T>
    ensures
        r == val,
{
    (Launder { _val: PhantomData }).launder(val)
}

/// How the hardened checks behave. The mode is a build-time choice: the
/// firmware's build configuration selects exactly one, it never changes
/// while the firmware runs, and no runtime flag switches it. A value of
/// this type passed to a check stands for that one configured choice.
#[derive(Debug, Clone, Copy, PartialEq, Eq, Structural)]
pub enum HardeningMode {
    /// Checks evaluate their condition once and discard the result: no
    /// failure is ever reported, whatever the operands. For builds where
    /// the fault-injection threat model does not apply.
    Disabled,
    /// Dual-evaluated checks; a failure is fatal and unrecoverable.
    Hardened,
    /// Dual-evaluated checks; a failure is observable and recoverable,
    /// so a test harness can see which cause fired.
    HardenedDiagnostic,
}

/// Whether checks under `mode` are armed at all.
pub open spec fn mode_is_hardened(mode: HardeningMode) -> bool {
    mode != HardeningMode::Disabled
}

/// The glitch-detection counter collaborator, seen by this library only
/// through its `delay` operation. `delay` perturbs the timing window
/// between the two evaluations of a hardened assertion; the count of
/// consumed ticks is what this model observes of that side effect. The
/// counter's own health checks report through `CfiPanicInfo` causes
/// supplied by its callers, not computed here.
pub struct CfiCounter {
    count: u64,
}

/// A tick count after one more delay, wrapping at the width of the count.
pub open spec fn tick_after(t: int) -> int {
    (t + 1) % 0x1_0000_0000_0000_0000
}

impl CfiCounter {
    /// The number of delay ticks consumed so far.
    pub closed spec fn ticks(self) -> u64 {
        self.count
    }

    /// A fresh counter with no ticks consumed.
    pub fn new() -> (r: Self)
        ensures
            r.ticks() == 0,
    {
        CfiCounter { count: 0 }
    }

    /// Reads the number of delay ticks consumed so far.
    pub fn tick_count(&self) -> (r: u64)
        ensures
            r == self.ticks(),
    {
        self.count
    }

    /// Consumes one tick, perturbing the timing of whatever follows.
    pub fn delay(&mut self)
        ensures
            final(self).ticks() == tick_after(old(self).ticks() as int),
    {
        self.count = self.count.wrapping_add(1);
    }
}

/// What a hardened assertion reports: `Ok` when the condition `holds` or
/// the checks are disabled, otherwise the failure cause of that assertion.
pub open spec fn assert_outcome(
    mode: HardeningMode,
    holds: bool,
    cause: CfiPanicInfo,
) -> Result<(), CfiPanicInfo> {
    if mode_is_hardened(mode) && !holds {
        Err(cause)
    } else {
        Ok(())
    }
}

/// The tick count after a hardened assertion: both delays when the
/// condition held, only the first when the first evaluation already
/// failed, none at all when the checks are disabled.
pub open spec fn ticks_after_assert(t: u64, mode: HardeningMode, holds: bool) -> int {
    if !mode_is_hardened(mode) {
        t as int
    } else if holds {
        tick_after(tick_after(t as int))
    } else {
        tick_after(t as int)
    }
}

/// Hardened equality assertion: evaluates `lhs == rhs`, consumes a delay
/// tick, and evaluates it again behind the optimization barrier; any
/// mismatch reports `AssertEqFail`.
pub fn cfi_assert_eq<T: Eq>(
    counter: &mut CfiCounter,
    mode: HardeningMode,
    lhs: T,
    rhs: T,
) -> (r: Result<(), CfiPanicInfo>) where Launder<T>: LaunderTrait<T>
    ensures
        mode == HardeningMode::Disabled ==> r == Ok::<(), CfiPanicInfo>(()) && *final(counter)
            == *old(counter),
        T::obeys_eq_spec() ==> r == assert_outcome(
            mode,
            lhs.eq_spec(&rhs),
            CfiPanicInfo::AssertEqFail,
        ),
        T::obeys_eq_spec() ==> final(counter).ticks() == ticks_after_assert(
            old(counter).ticks(),
            mode,
            lhs.eq_spec(&rhs),
        ),
{
    match mode {
        HardeningMode::Disabled => {
            let _ = lhs == rhs;
            Ok(())
        },
        _ => {
            counter.delay();
            if !(lhs == rhs) {
                return Err(CfiPanicInfo::AssertEqFail);
            }
            // Second, independently timed evaluation for glitch protection.
            counter.delay();
            if !(cfi_launder(lhs) == cfi_launder(rhs)) {
                return Err(CfiPanicInfo::AssertEqFail);
            }
            Ok(())
        },
    }
}

/// Hardened inequality assertion: dual-evaluates `lhs != rhs`; equal
/// operands report `AssertNeFail`.
pub fn cfi_assert_ne<T: Eq>(
    counter: &mut CfiCounter,
    mode: HardeningMode,
    lhs: T,
    rhs: T,
) -> (r: Result<(), CfiPanicInfo>) where Launder<T>: LaunderTrait<T>
    ensures
        mode == HardeningMode::Disabled ==> r == Ok::<(), CfiPanicInfo>(()) && *final(counter)
            == *old(counter),
        T::obeys_eq_spec() ==> r == assert_outcome(
            mode,
            !lhs.eq_spec(&rhs),
            CfiPanicInfo::AssertNeFail,
        ),
        T::obeys_eq_spec() ==> final(counter).ticks() == ticks_after_assert(
            old(counter).ticks(),
            mode,
            !lhs.eq_spec(&rhs),
        ),
{
    match mode {
        HardeningMode::Disabled => {
            let _ = lhs != rhs;
            Ok(())
        },
        _ => {
            counter.delay();
            if !(lhs != rhs) {
                return Err(CfiPanicInfo::AssertNeFail);
            }
            // Second, independently timed evaluation for glitch protection.
            counter.delay();
            if !(cfi_launder(lhs) != cfi_launder(rhs)) {
                return Err(CfiPanicInfo::AssertNeFail);
            }
            Ok(())
        },
    }
}

/// Hardened ordering assertion: dual-evaluates `lhs > rhs`; a violation
/// reports `AssertGtFail`.
pub fn cfi_assert_gt<T: Ord>(
    counter: &mut CfiCounter,
    mode: HardeningMode,
    lhs: T,
    rhs: T,
) -> (r: Result<(), CfiPanicInfo>) where Launder<T>: LaunderTrait<T>
    ensures
        mode == HardeningMode::Disabled ==> r == Ok::<(), CfiPanicInfo>(()) && *final(counter)
            == *old(counter),
        T::obeys_partial_cmp_spec() ==> r == assert_outcome(
            mode,
            lhs.is_gt(&rhs),
            CfiPanicInfo::AssertGtFail,
        ),
        T::obeys_partial_cmp_spec() ==> final(counter).ticks() == ticks_after_assert(
            old(counter).ticks(),
            mode,
            lhs.is_gt(&rhs),
        ),
{
    match mode {
        HardeningMode::Disabled => {
            let _ = lhs > rhs;
            Ok(())
        },
        _ => {
            counter.delay();
            if !(lhs > rhs) {
                return Err(CfiPanicInfo::AssertGtFail);
            }
            // Second, independently timed evaluation for glitch protection.
            counter.delay();
            if !(cfi_launder(lhs) > cfi_launder(rhs)) {
                return Err(CfiPanicInfo::AssertGtFail);
            }
            Ok(())
        },
    }
}

/// Hardened ordering assertion: dual-evaluates `lhs < rhs`; a violation
/// reports `AssertLtFail`.
pub fn cfi_assert_lt<T: Ord>(
    counter: &mut CfiCounter,
    mode: HardeningMode,
    lhs: T,
    rhs: T,
) -> (r: Result<(), CfiPanicInfo>) where Launder<T>: LaunderTrait<T>
    ensures
        mode == HardeningMode::Disabled ==> r == Ok::<(), CfiPanicInfo>(()) && *final(counter)
            == *old(counter),
        T::obeys_partial_cmp_spec() ==> r == assert_outcome(
            mode,
            lhs.is_lt(&rhs),
            CfiPanicInfo::AssertLtFail,
        ),
        T::obeys_partial_cmp_spec() ==> final(counter).ticks() == ticks_after_assert(
            old(counter).ticks(),
            mode,
            lhs.is_lt(&rhs),
        ),
{
    match mode {
        HardeningMode::Disabled => {
            let _ = lhs < rhs;
            Ok(())
        },
        _ => {
            counter.delay();
            if !(lhs < rhs) {
                return Err(CfiPanicInfo::AssertLtFail);
            }
            // Second, independently timed evaluation for glitch protection.
            counter.delay();
            if !(cfi_launder(lhs) < cfi_launder(rhs)) {
                return Err(CfiPanicInfo::AssertLtFail);
            }
            Ok(())
        },
    }
}

/// Hardened ordering assertion: dual-evaluates `lhs >= rhs`; a violation
/// reports `AssertGeFail`.
pub fn cfi_assert_ge<T: Ord>(
    counter: &mut CfiCounter,
    mode: HardeningMode,
    lhs: T,
    rhs: T,
) -> (r: Result<(), CfiPanicInfo>) where Launder<T>: LaunderTrait<T>
    ensures
        mode == HardeningMode::Disabled ==> r == Ok::<(), CfiPanicInfo>(()) && *final(counter)
            == *old(counter),
        T::obeys_partial_cmp_spec() ==> r == assert_outcome(
            mode,
            lhs.is_ge(&rhs),
            CfiPanicInfo::AssertGeFail,
        ),
        T::obeys_partial_cmp_spec() ==> final(counter).ticks() == ticks_after_assert(
            old(counter).ticks(),
            mode,
            lhs.is_ge(&rhs),
        ),
{
    match mode {
        HardeningMode::Disabled => {
            let _ = lhs >= rhs;
            Ok(())
        },
        _ => {
            counter.delay();
            if !(lhs >= rhs) {
                return Err(CfiPanicInfo::AssertGeFail);
            }
            // Second, independently timed evaluation for glitch protection.
            counter.delay();
            if !(cfi_launder(lhs) >= cfi_launder(rhs)) {
                return Err(CfiPanicInfo::AssertGeFail);
            }
            Ok(())
        },
    }
}

/// Hardened ordering assertion: dual-evaluates `lhs <= rhs`; a violation
/// reports `AssertLeFail`.
pub fn cfi_assert_le<T: Ord>(
    counter: &mut CfiCounter,
    mode: HardeningMode,
    lhs: T,
    rhs: T,
) -> (r: Result<(), CfiPanicInfo>) where Launder<T>: LaunderTrait<T>
    ensures
        mode == HardeningMode::Disabled ==> r == Ok::<(), CfiPanicInfo>(()) && *final(counter)
            == *old(counter),
        T::obeys_partial_cmp_spec() ==> r == assert_outcome(
            mode,
            lhs.is_le(&rhs),
            CfiPanicInfo::AssertLeFail,
        ),
        T::obeys_partial_cmp_spec() ==> final(counter).ticks() == ticks_after_assert(
            old(counter).ticks(),
            mode,
            lhs.is_le(&rhs),
        ),
{
    match mode {
        HardeningMode::Disabled => {
            let _ = lhs <= rhs;
            Ok(())
        },
        _ => {
            counter.delay();
            if !(lhs <= rhs) {
                return Err(CfiPanicInfo::AssertLeFail);
            }
            // Second, independently timed evaluation for glitch protection.
            counter.delay();
            if !(cfi_launder(lhs) <= cfi_launder(rhs)) {
                return Err(CfiPanicInfo::AssertLeFail);
            }
            Ok(())
        },
    }
}

/// Hardened boolean assertion: dual-evaluates `cond`; a false condition
/// reports `AssertEqFail`.
pub fn cfi_assert_bool(counter: &mut CfiCounter, mode: HardeningMode, cond: bool) -> (r: Result<
    (),
    CfiPanicInfo,
>)
    ensures
        r == assert_outcome(mode, cond, CfiPanicInfo::AssertEqFail),
        final(counter).ticks() == ticks_after_assert(old(counter).ticks(), mode, cond),
        mode == HardeningMode::Disabled ==> *final(counter) == *old(counter),
{
    match mode {
        HardeningMode::Disabled => Ok(()),
        _ => {
            counter.delay();
            if !cond {
                return Err(CfiPanicInfo::AssertEqFail);
            }
            // Second, independently timed evaluation for glitch protection.
            counter.delay();
            if !cfi_launder(cond) {
                return Err(CfiPanicInfo::AssertEqFail);
            }
            Ok(())
        },
    }
}

/// Hardened equality of two 384-bit values held as 12 machine words.
///
/// Under a hardened mode the comparison is fully unrolled, one compare and
/// one dedicated failure branch per word, mirroring the control-flow
/// layout used on the hardened target, where the failure trampoline stands
/// before the compares so that a skipped instruction lands in defensive
/// code rather than past the checks. Under `Disabled` the comparison is
/// evaluated once, its result is discarded, and no mismatch is ever
/// reported.
pub fn cfi_assert_eq_12_words(mode: HardeningMode, a: &[u32; 12], b: &[u32; 12]) -> (r: Result<
    (),
    CfiPanicInfo,
>)
    ensures
        mode == HardeningMode::Disabled ==> r == Ok::<(), CfiPanicInfo>(()),
        mode_is_hardened(mode) && a@ == b@ ==> r == Ok::<(), CfiPanicInfo>(()),
        mode_is_hardened(mode) && a@ != b@ ==> r == Err::<(), CfiPanicInfo>(
            CfiPanicInfo::AssertEqFail,
        ),
{
    match mode {
        HardeningMode::Disabled => {
            // The comparison is evaluated once and its result discarded:
            // nothing is reported when the checks are compiled out.
            let _ = a == b;
            Ok(())
        },
        _ => {
            if a[0] != b[0] {
                return Err(CfiPanicInfo::AssertEqFail);
            }
            if a[1] != b[1] {
                return Err(CfiPanicInfo::AssertEqFail);
            }
            if a[2] != b[2] {
                return Err(CfiPanicInfo::AssertEqFail);
            }
            if a[3] != b[3] {
                return Err(CfiPanicInfo::AssertEqFail);
            }
            if a[4] != b[4] {
                return Err(CfiPanicInfo::AssertEqFail);
            }
            if a[5] != b[5] {
                return Err(CfiPanicInfo::AssertEqFail);
            }
            if a[6] != b[6] {
                return Err(CfiPanicInfo::AssertEqFail);
            }
            if a[7] != b[7] {
                return Err(CfiPanicInfo::AssertEqFail);
            }
            if a[8] != b[8] {
                return Err(CfiPanicInfo::AssertEqFail);
            }
            if a[9] != b[9] {
                return Err(CfiPanicInfo::AssertEqFail);
            }
            if a[10] != b[10] {
                return Err(CfiPanicInfo::AssertEqFail);
            }
            if a[11] != b[11] {
                return Err(CfiPanicInfo::AssertEqFail);
            }
            proof {
                assert(a@ =~= b@);
            }
            Ok(())
        },
    }
}

/// Hardened equality of two 256-bit values held as 8 machine words,
/// unrolled word by word and mode-gated as in `cfi_assert_eq_12_words`.
pub fn cfi_assert_eq_8_words(mode: HardeningMode, a: &[u32; 8], b: &[u32; 8]) -> (r: Result<
    (),
    CfiPanicInfo,
>)
    ensures
        mode == HardeningMode::Disabled ==> r == Ok::<(), CfiPanicInfo>(()),
        mode_is_hardened(mode) && a@ == b@ ==> r == Ok::<(), CfiPanicInfo>(()),
        mode_is_hardened(mode) && a@ != b@ ==> r == Err::<(), CfiPanicInfo>(
            CfiPanicInfo::AssertEqFail,
        ),
{
    match mode {
        HardeningMode::Disabled => {
            // The comparison is evaluated once and its result discarded:
            // nothing is reported when the checks are compiled out.
            let _ = a == b;
            Ok(())
        },
        _ => {
            if a[0] != b[0] {
                return Err(CfiPanicInfo::AssertEqFail);
            }
            if a[1] != b[1] {
                return Err(CfiPanicInfo::AssertEqFail);
            }
            if a[2] != b[2] {
                return Err(CfiPanicInfo::AssertEqFail);
            }
            if a[3] != b[3] {
                return Err(CfiPanicInfo::AssertEqFail);
            }
            if a[4] != b[4] {
                return Err(CfiPanicInfo::AssertEqFail);
            }
            if a[5] != b[5] {
                return Err(CfiPanicInfo::AssertEqFail);
            }
            if a[6] != b[6] {
                return Err(CfiPanicInfo::AssertEqFail);
            }
            if a[7] != b[7] {
                return Err(CfiPanicInfo::AssertEqFail);
            }
            proof {
                assert(a@ =~= b@);
            }
            Ok(())
        },
    }
}

/// Hardened equality of two 192-bit values held as 6 machine words,
/// unrolled word by word and mode-gated as in `cfi_assert_eq_12_words`.
pub fn cfi_assert_eq_6_words(mode: HardeningMode, a: &[u32; 6], b: &[u32; 6]) -> (r: Result<
    (),
    CfiPanicInfo,
>)
    ensures
        mode == HardeningMode::Disabled ==> r == Ok::<(), CfiPanicInfo>(()),
        mode_is_hardened(mode) && a@ == b@ ==> r == Ok::<(), CfiPanicInfo>(()),
        mode_is_hardened(mode) && a@ != b@ ==> r == Err::<(), CfiPanicInfo>(
            CfiPanicInfo::AssertEqFail,
        ),
{
    match mode {
        HardeningMode::Disabled => {
            // The comparison is evaluated once and its result discarded:
            // nothing is reported when the checks are compiled out.
            let _ = a == b;
            Ok(())
        },
        _ => {
            if a[0] != b[0] {
                return Err(CfiPanicInfo::AssertEqFail);
            }
            if a[1] != b[1] {
                return Err(CfiPanicInfo::AssertEqFail);
            }
            if a[2] != b[2] {
                return Err(CfiPanicInfo::AssertEqFail);
            }
            if a[3] != b[3] {
                return Err(CfiPanicInfo::AssertEqFail);
            }
            if a[4] != b[4] {
                return Err(CfiPanicInfo::AssertEqFail);
            }
            if a[5] != b[5] {
                return Err(CfiPanicInfo::AssertEqFail);
            }
            proof {
                assert(a@ =~= b@);
            }
            Ok(())
        },
    }
}

/// The decision half of the fatal path: launders the cause, so the
/// compiler cannot fold the cause computation away, then converts it to
/// the code the firmware's never-returning fatal handler receives. The
/// divergence itself — halting or resetting the chip — is the surrounding
/// firmware's, outside verified code.
pub fn cfi_panic_code(info: CfiPanicInfo) -> (r: ReportedErrorCode)
    ensures
        r.code == spec_error_code(info),
{
    let info = cfi_launder(info);
    ReportedErrorCode::from(info)
}

} // verus!
