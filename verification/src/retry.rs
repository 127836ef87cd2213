//! When to scan again before choosing, and the guard that stops a retry loop
//! that runs away.

use vstd::prelude::*;

use crate::enums::{AutoMode, SynchronousRescanType};
use crate::errors::{RuwiError, RuwiErrorKind};
use crate::interfaces::{AutoSelect, Global};
use crate::number::{decimal, decimal_chars};
use crate::sort_networks::{first_of_each_name, ranks, SortedFilteredNetworks};
use crate::structs::AnnotatedWirelessNetwork;
use crate::text::{chars_of, push_all, push_str, string_of};

verus! {

/// How many rounds a scan-and-choose loop may run.
pub const LOOP_MAX: u16 = 1000;

/// Whether one of `networks` is known.
pub open spec fn any_known(networks: Seq<AnnotatedWirelessNetwork>) -> bool {
    exists|i: int| 0 <= i < networks.len() && (#[trigger] networks[i]).service_identifier is Some
}

/// Whether a blocking rescan should be run on its own accord: only when none has
/// been run yet, and either nothing was seen or the mode looks for a known
/// network and none was seen.
pub open spec fn retry_wanted(
    auto_mode: AutoMode,
    networks: Seq<AnnotatedWirelessNetwork>,
    synchronous_retry: Option<SynchronousRescanType>,
) -> bool {
    &&& synchronous_retry is None
    &&& (networks.len() == 0 || match auto_mode {
        AutoMode::KnownOrAsk | AutoMode::KnownOrFail => !any_known(networks),
        AutoMode::First | AutoMode::Ask => false,
    })
}

/// Whether to scan again, blocking, before choosing among `networks`.
pub fn should_auto_retry_with_synchronous_scan<O>(
    options: &O,
    networks: &[AnnotatedWirelessNetwork],
    synchronous_retry: &Option<SynchronousRescanType>,
) -> (r: bool) where O: Global + AutoSelect
    ensures
        r == retry_wanted(options.auto_mode_of(), networks@, *synchronous_retry),
{
    if synchronous_retry.is_some() {
        return false;
    }
    if networks.len() == 0 {
        return true;
    }
    match options.get_auto_mode() {
        AutoMode::KnownOrAsk | AutoMode::KnownOrFail => {
            let mut i: usize = 0;
            while i < networks.len()
                invariant
                    i <= networks.len(),
                    forall|j: int| 0 <= j < i ==> (#[trigger] networks@[j]).service_identifier is None,
                decreases networks.len() - i,
            {
                if networks[i].is_known() {
                    return false;
                }
                i += 1;
            }
            true
        },
        AutoMode::First | AutoMode::Ask => false,
    }
}

/// Whether `res` is the error by which the user asked for a new scan.
pub fn manual_refresh_requested<T>(res: &Result<T, RuwiError>) -> (r: bool)
    ensures
        r == (res matches Err(e) && e.kind == RuwiErrorKind::RefreshRequested),
{
    match res {
        Err(err) => err.kind == RuwiErrorKind::RefreshRequested,
        Ok(_) => false,
    }
}

/// The description of the error that stops a loop after `loop_max` rounds.
pub open spec fn loop_exceeded_desc(loop_max: u16) -> Seq<char> {
    "Infinite loop suspected in main loop! If you just retried "@ + decimal(loop_max as nat)
        + " times by hand, consider the author very impressed and feel free to make a diff to bump this number. Exiting..."@
}

/// Counts one more round of a loop, or fails once `loop_max` rounds have been counted.
pub fn loop_check(loop_protection: &mut u16, loop_max: u16) -> (r: Result<(), RuwiError>)
    ensures
        *old(loop_protection) < loop_max ==> r is Ok && *final(loop_protection) == *old(
            loop_protection,
        ) + 1,
        *old(loop_protection) >= loop_max ==> *final(loop_protection) == *old(loop_protection)
            && (r matches Err(e) && e.kind == RuwiErrorKind::LoopProtectionMaxExceeded && e.desc@
            == loop_exceeded_desc(loop_max)),
{
    if *loop_protection >= loop_max {
        let mut desc = chars_of("Infinite loop suspected in main loop! If you just retried ");
        let digits = decimal_chars(loop_max as u64);
        push_all(&mut desc, digits.as_slice());
        push_str(
            &mut desc,
            " times by hand, consider the author very impressed and feel free to make a diff to bump this number. Exiting...",
        );
        return Err(
            RuwiError::with_desc(RuwiErrorKind::LoopProtectionMaxExceeded, string_of(desc.as_slice())),
        );
    }
    *loop_protection = *loop_protection + 1;
    Ok(())
}

/// The state of a scan-and-choose loop: why the next scan must wait for fresh
/// results, if it must, and how many rounds have run.
#[derive(Debug, Clone, Copy, PartialEq, Eq, Structural)]
pub struct ScanLoop {
    pub synchronous_retry: Option<SynchronousRescanType>,
    pub loop_protection: u16,
}

/// What follows reading a scan.
#[derive(Debug, PartialEq, Eq)]
pub enum ScanLoopNext {
    /// Scan again, waiting for fresh results.
    Rescan,
    /// Choose among these networks.
    Select(SortedFilteredNetworks),
}

impl ScanLoop {
    /// The state before the first round.
    pub fn new() -> (r: ScanLoop)
        ensures
            r.synchronous_retry is None,
            r.loop_protection == 0,
    {
        ScanLoop { synchronous_retry: None, loop_protection: 0 }
    }

    /// Starts a round: counts it, failing after `LOOP_MAX` rounds, and says why
    /// its scan must wait for fresh results, if it must.
    pub fn start_round(&mut self) -> (r: Result<Option<SynchronousRescanType>, RuwiError>)
        ensures
            final(self).synchronous_retry == old(self).synchronous_retry,
            old(self).loop_protection < LOOP_MAX ==> r == Ok::<
                Option<SynchronousRescanType>,
                RuwiError,
            >(old(self).synchronous_retry) && final(self).loop_protection == old(
                self,
            ).loop_protection + 1,
            old(self).loop_protection >= LOOP_MAX ==> (r matches Err(e) && e.kind
                == RuwiErrorKind::LoopProtectionMaxExceeded) && final(self).loop_protection == old(
                self,
            ).loop_protection,
            r is Err ==> forall|events: Seq<RoundEvent>|
                #[trigger] scan_loop_end(old(self).loop_protection as nat, events) == Some(
                    LoopEnd::GaveUp,
                ),
    {
        match loop_check(&mut self.loop_protection, LOOP_MAX) {
            Ok(()) => Ok(self.synchronous_retry),
            Err(e) => Err(e),
        }
    }

    /// After the scan was read and marked: scan again on the loop's own accord
    /// (see [`should_auto_retry_with_synchronous_scan`]), or choose among the
    /// networks ranked with repeated names dropped.
    pub fn after_scan<O: Global + AutoSelect>(
        &mut self,
        options: &O,
        networks: Vec<AnnotatedWirelessNetwork>,
    ) -> (r: ScanLoopNext)
        ensures
            final(self).loop_protection == old(self).loop_protection,
            retry_wanted(options.auto_mode_of(), networks@, old(self).synchronous_retry) ==> (r
                == ScanLoopNext::Rescan && final(self).synchronous_retry == Some(
                SynchronousRescanType::Automatic,
            )),
            !retry_wanted(options.auto_mode_of(), networks@, old(self).synchronous_retry) ==> (
            r matches ScanLoopNext::Select(s) && final(self).synchronous_retry == old(
                self,
            ).synchronous_retry && exists|sorted: Seq<AnnotatedWirelessNetwork>|
                ranks(networks@, sorted) && s@ == first_of_each_name(sorted)),
            r == ScanLoopNext::Rescan && 1 <= old(self).loop_protection <= LOOP_MAX ==> forall|
                rest: Seq<RoundEvent>,
            |
                #[trigger] scan_loop_end(
                    (old(self).loop_protection - 1) as nat,
                    seq![RoundEvent::Rescan].add(rest),
                ) == scan_loop_end(final(self).loop_protection as nat, rest),
    {
        proof {
            assert forall|rest: Seq<RoundEvent>| #[trigger]
                seq![RoundEvent::Rescan].add(rest).drop_first() == rest by {
                assert(seq![RoundEvent::Rescan].add(rest).drop_first() =~= rest);
            }
        }
        if should_auto_retry_with_synchronous_scan(options, networks.as_slice(), &self.synchronous_retry) {
            self.synchronous_retry = Some(SynchronousRescanType::Automatic);
            ScanLoopNext::Rescan
        } else {
            ScanLoopNext::Select(SortedFilteredNetworks::new(networks))
        }
    }

    /// After choosing: the user's request for a new scan starts another round
    /// (`None`); any other result ends the loop.
    pub fn after_selection(&mut self, res: Result<AnnotatedWirelessNetwork, RuwiError>) -> (r: Option<
        Result<AnnotatedWirelessNetwork, RuwiError>,
    >)
        ensures
            final(self).loop_protection == old(self).loop_protection,
            (res matches Err(e) && e.kind == RuwiErrorKind::RefreshRequested) ==> r is None
                && final(self).synchronous_retry == Some(SynchronousRescanType::ManuallyRequested),
            !(res matches Err(e) && e.kind == RuwiErrorKind::RefreshRequested) ==> r == Some(res)
                && final(self).synchronous_retry == old(self).synchronous_retry,
            1 <= old(self).loop_protection <= LOOP_MAX ==> forall|rest: Seq<RoundEvent>|
                #[trigger] scan_loop_end(
                    (old(self).loop_protection - 1) as nat,
                    seq![RoundEvent::Chosen(res)].add(rest),
                ) == match r {
                    None => scan_loop_end(final(self).loop_protection as nat, rest),
                    Some(x) => Some(LoopEnd::Selected(x)),
                },
    {
        proof {
            assert forall|rest: Seq<RoundEvent>| #[trigger]
                seq![RoundEvent::Chosen(res)].add(rest).drop_first() == rest by {
                assert(seq![RoundEvent::Chosen(res)].add(rest).drop_first() =~= rest);
            }
        }
        if manual_refresh_requested(&res) {
            self.synchronous_retry = Some(SynchronousRescanType::ManuallyRequested);
            None
        } else {
            Some(res)
        }
    }
}

/// Once a rescan was made, no rescan is made on the loop's own accord: an
/// automatic rescan happens at most once in a row.
pub proof fn lemma_no_second_automatic_rescan(
    mode: AutoMode,
    networks: Seq<AnnotatedWirelessNetwork>,
    reason: SynchronousRescanType,
)
    ensures
        !retry_wanted(mode, networks, Some(reason)),
{
}

/// What one round of a scan-and-choose loop saw: a scan that asks for another
/// on the loop's own accord, or the result of choosing.
#[derive(Debug)]
pub enum RoundEvent {
    Rescan,
    Chosen(Result<AnnotatedWirelessNetwork, RuwiError>),
}

/// How a scan-and-choose loop ends.
#[derive(Debug)]
pub enum LoopEnd {
    /// A choice that is not a request for a new scan.
    Selected(Result<AnnotatedWirelessNetwork, RuwiError>),
    /// `LOOP_MAX` rounds ran without one: the loop-protection error.
    GaveUp,
}

/// Whether `res` is the user's request for a new scan.
pub open spec fn is_refresh(res: Result<AnnotatedWirelessNetwork, RuwiError>) -> bool {
    res matches Err(e) && e.kind == RuwiErrorKind::RefreshRequested
}

/// Whether a round that saw `e` ends the loop.
pub open spec fn ends_loop(e: RoundEvent) -> bool {
    e matches RoundEvent::Chosen(res) && !is_refresh(res)
}

/// How a loop that has run `rounds_done` rounds ends when its next rounds see
/// `events` (none when the events run out first): [`ScanLoop::start_round`]
/// refuses a round after `LOOP_MAX`, [`ScanLoop::after_scan`] and
/// [`ScanLoop::after_selection`] start another on a rescan or a refresh, and
/// any other choice ends the loop.
pub open spec fn scan_loop_end(rounds_done: nat, events: Seq<RoundEvent>) -> Option<LoopEnd>
    decreases events.len(),
{
    if rounds_done >= LOOP_MAX {
        Some(LoopEnd::GaveUp)
    } else if events.len() == 0 {
        None
    } else {
        match events[0] {
            RoundEvent::Rescan => scan_loop_end(rounds_done + 1, events.drop_first()),
            RoundEvent::Chosen(res) => if is_refresh(res) {
                scan_loop_end(rounds_done + 1, events.drop_first())
            } else {
                Some(LoopEnd::Selected(res))
            },
        }
    }
}

proof fn lemma_scan_loop_from(k: nat, events: Seq<RoundEvent>)
    requires
        k <= LOOP_MAX,
    ensures
        forall|j: int|
            0 <= j < events.len() && k + j < LOOP_MAX && ends_loop(#[trigger] events[j]) && (forall|i: int|
                0 <= i < j ==> !ends_loop(#[trigger] events[i])) ==> scan_loop_end(k, events)
                == Some(LoopEnd::Selected(events[j]->Chosen_0)),
        (forall|i: int| 0 <= i < events.len() && k + i < LOOP_MAX ==> !ends_loop(#[trigger] events[i]))
            ==> scan_loop_end(k, events) == (if k + events.len() >= LOOP_MAX {
            Some(LoopEnd::GaveUp)
        } else {
            None::<LoopEnd>
        }),
    decreases events.len(),
{
    if k < LOOP_MAX && events.len() > 0 {
        let rest = events.drop_first();
        lemma_scan_loop_from(k + 1, rest);
        assert forall|j: int|
            0 <= j < events.len() && k + j < LOOP_MAX && ends_loop(#[trigger] events[j]) && (forall|i: int|
                0 <= i < j ==> !ends_loop(#[trigger] events[i])) implies scan_loop_end(k, events)
            == Some(LoopEnd::Selected(events[j]->Chosen_0)) by {
            if j > 0 {
                assert(!ends_loop(events[0]));
                assert(rest[j - 1] == events[j]);
                assert forall|i: int| 0 <= i < j - 1 implies !ends_loop(#[trigger] rest[i]) by {
                    assert(rest[i] == events[i + 1]);
                }
            }
        }
        if forall|i: int| 0 <= i < events.len() && k + i < LOOP_MAX ==> !ends_loop(#[trigger] events[i]) {
            assert(!ends_loop(events[0]));
            assert forall|i: int| 0 <= i < rest.len() && k + 1 + i < LOOP_MAX implies !ends_loop(
                #[trigger] rest[i],
            ) by {
                assert(rest[i] == events[i + 1]);
            }
        }
    }
}

/// A scan-and-choose loop runs at most `LOOP_MAX` rounds: its result is the
/// first choice that is not a request for a new scan, when one comes within
/// `LOOP_MAX` rounds, and otherwise the loop-protection error after exactly
/// `LOOP_MAX` rounds.
pub proof fn lemma_scan_loop(events: Seq<RoundEvent>)
    ensures
        forall|j: int|
            0 <= j < events.len() && j < LOOP_MAX && ends_loop(#[trigger] events[j]) && (forall|i: int|
                0 <= i < j ==> !ends_loop(#[trigger] events[i])) ==> scan_loop_end(0, events)
                == Some(LoopEnd::Selected(events[j]->Chosen_0)),
        (forall|i: int| 0 <= i < events.len() && i < LOOP_MAX ==> !ends_loop(#[trigger] events[i]))
            ==> scan_loop_end(0, events) == (if events.len() >= LOOP_MAX {
            Some(LoopEnd::GaveUp)
        } else {
            None::<LoopEnd>
        }),
{
    lemma_scan_loop_from(0, events);
}

} // verus!
