use vstd::prelude::*;

use crate::error::ExtractError;
use crate::headers::{column_headers_from, headers_of, lowered_all, texts};
use crate::variant::{
    TableVariant, lemma_toggle_round_trip, lower_of, parsed_variant, toggle, variant_from_label,
};

verus! {

/// What the session reports while the banner is being dismissed.
#[derive(Clone, Copy, Debug, PartialEq, Eq, Structural)]
pub enum BannerEvent {
    /// No close control appeared within the polling window.
    Absent,
    /// The close control was found.
    Present,
    /// The close control became clickable.
    Clickable,
    /// Waiting for the close control to become clickable failed.
    WaitFailed(ExtractError),
    /// The close control was clicked.
    Clicked,
    /// Clicking the close control failed.
    ClickFailed(ExtractError),
}

/// What the session does next while dismissing the banner.
#[derive(Clone, Copy, Debug, PartialEq, Eq, Structural)]
pub enum BannerAction {
    WaitClickable,
    Click,
    /// Dismissal is over and the caller proceeds.
    Done,
    /// Dismissal failed with this error.
    Fail(ExtractError),
}

/// The banner is optional: its absence ends dismissal without an error. A
/// control that is present but cannot be waited for or clicked is an error.
pub open spec fn banner_action(event: BannerEvent) -> BannerAction {
    match event {
        BannerEvent::Absent => BannerAction::Done,
        BannerEvent::Present => BannerAction::WaitClickable,
        BannerEvent::Clickable => BannerAction::Click,
        BannerEvent::WaitFailed(e) => BannerAction::Fail(e),
        BannerEvent::Clicked => BannerAction::Done,
        BannerEvent::ClickFailed(e) => BannerAction::Fail(e),
    }
}

/// Decides the next step of banner dismissal from what the session reported.
pub fn banner_step(event: BannerEvent) -> (a: BannerAction)
    ensures
        a == banner_action(event),
{
    match event {
        BannerEvent::Absent => BannerAction::Done,
        BannerEvent::Present => BannerAction::WaitClickable,
        BannerEvent::Clickable => BannerAction::Click,
        BannerEvent::WaitFailed(e) => BannerAction::Fail(e),
        BannerEvent::Clicked => BannerAction::Done,
        BannerEvent::ClickFailed(e) => BannerAction::Fail(e),
    }
}

/// Where a request for the column headers of one variant stands.
#[derive(Clone, Copy, Debug, PartialEq, Eq, Structural)]
pub enum Phase {
    /// Waiting for the label of the selected table button.
    AwaitActive,
    /// Waiting for the toggle to the other variant to be clicked.
    AwaitSwitch,
    /// Waiting for the label of the selected table button after the toggle.
    AwaitRecheck,
    /// Waiting for the rendered header labels.
    AwaitHeaders,
    /// The request has its answer.
    Finished,
}

/// What the session does next for a columns request.
pub enum ColumnsAction {
    /// Click the table button that is not selected.
    Switch,
    /// Read the label of the selected table button again.
    ReadActive,
    /// Read the rendered header labels in document order.
    ReadHeaders,
    /// The column headers of the wanted variant.
    Done(Vec<String>),
    /// The request failed with this error.
    Fail(ExtractError),
}

/// A request for the column headers of one table variant. It reads which
/// variant is active, toggles at most once and then checks that the wanted
/// variant shows, then reads the headers.
pub struct ColumnsRequest {
    wanted: TableVariant,
    phase: Phase,
    switches: u8,
}

impl ColumnsRequest {
    pub closed spec fn wanted_spec(&self) -> TableVariant {
        self.wanted
    }

    pub closed spec fn phase_spec(&self) -> Phase {
        self.phase
    }

    /// How many times the toggle was asked for.
    pub closed spec fn switches_spec(&self) -> nat {
        self.switches as nat
    }

    /// At most one toggle is ever asked for.
    pub open spec fn wf(&self) -> bool {
        &&& self.switches_spec() <= 1
        &&& self.phase_spec() == Phase::AwaitActive ==> self.switches_spec() == 0
        &&& self.phase_spec() == Phase::AwaitSwitch ==> self.switches_spec() == 1
        &&& self.phase_spec() == Phase::AwaitRecheck ==> self.switches_spec() == 1
    }

    /// Starts a request for the headers of `wanted`; the session first reads
    /// the label of the selected table button.
    pub fn columns_for(wanted: TableVariant) -> (r: ColumnsRequest)
        ensures
            r.wf(),
            r.wanted_spec() == wanted,
            r.phase_spec() == Phase::AwaitActive,
            r.switches_spec() == 0,
    {
        ColumnsRequest { wanted, phase: Phase::AwaitActive, switches: 0 }
    }

    pub fn wanted(&self) -> (r: TableVariant)
        ensures
            r == self.wanted_spec(),
    {
        self.wanted
    }

    pub fn phase(&self) -> (r: Phase)
        ensures
            r == self.phase_spec(),
    {
        self.phase
    }

    /// How many times the toggle was asked for.
    pub fn switches(&self) -> (r: u8)
        ensures
            r as nat == self.switches_spec(),
    {
        self.switches
    }

    /// Takes the label of the selected table button. Where it names the wanted
    /// variant the headers are read at once; where it names the other one the
    /// toggle is clicked first, once; where it names neither the request fails.
    pub fn on_active_label(&mut self, label: &str) -> (a: ColumnsAction)
        requires
            old(self).wf(),
            old(self).phase_spec() == Phase::AwaitActive,
        ensures
            final(self).wf(),
            final(self).wanted_spec() == old(self).wanted_spec(),
            match parsed_variant(lower_of(label@)) {
                Ok(v) => if v == old(self).wanted_spec() {
                    &&& a is ReadHeaders
                    &&& final(self).phase_spec() == Phase::AwaitHeaders
                    &&& final(self).switches_spec() == 0
                } else {
                    &&& a is Switch
                    &&& toggle(v) == old(self).wanted_spec()
                    &&& final(self).phase_spec() == Phase::AwaitSwitch
                    &&& final(self).switches_spec() == 1
                },
                Err(e) => {
                    &&& a == ColumnsAction::Fail(e)
                    &&& final(self).phase_spec() == Phase::Finished
                    &&& final(self).switches_spec() == 0
                },
            },
    {
        match variant_from_label(label) {
            Ok(v) => {
                if v == self.wanted {
                    self.phase = Phase::AwaitHeaders;
                    ColumnsAction::ReadHeaders
                } else {
                    proof {
                        lemma_toggle_round_trip(v);
                    }
                    self.phase = Phase::AwaitSwitch;
                    self.switches = 1;
                    ColumnsAction::Switch
                }
            },
            Err(e) => {
                self.phase = Phase::Finished;
                ColumnsAction::Fail(e)
            },
        }
    }

    /// Takes the news that the toggle was clicked; the selected label is
    /// read again next.
    pub fn on_switched(&mut self) -> (a: ColumnsAction)
        requires
            old(self).wf(),
            old(self).phase_spec() == Phase::AwaitSwitch,
        ensures
            final(self).wf(),
            a is ReadActive,
            final(self).wanted_spec() == old(self).wanted_spec(),
            final(self).phase_spec() == Phase::AwaitRecheck,
            final(self).switches_spec() == old(self).switches_spec(),
    {
        self.phase = Phase::AwaitRecheck;
        ColumnsAction::ReadActive
    }

    /// Takes the label of the selected table button after the one toggle.
    /// Where it names the wanted variant the headers are read; anything else
    /// means the page is not the two-variant toggle it is taken for, and the
    /// request fails rather than toggling again.
    pub fn on_rechecked_label(&mut self, label: &str) -> (a: ColumnsAction)
        requires
            old(self).wf(),
            old(self).phase_spec() == Phase::AwaitRecheck,
        ensures
            final(self).wf(),
            final(self).wanted_spec() == old(self).wanted_spec(),
            final(self).switches_spec() == old(self).switches_spec(),
            parsed_variant(lower_of(label@)) == Ok::<TableVariant, ExtractError>(
                old(self).wanted_spec(),
            ) ==> {
                &&& a is ReadHeaders
                &&& final(self).phase_spec() == Phase::AwaitHeaders
            },
            parsed_variant(lower_of(label@)) != Ok::<TableVariant, ExtractError>(
                old(self).wanted_spec(),
            ) ==> {
                &&& a == ColumnsAction::Fail(ExtractError::UnknownVariant)
                &&& final(self).phase_spec() == Phase::Finished
            },
    {
        match variant_from_label(label) {
            Ok(v) => {
                if v == self.wanted {
                    self.phase = Phase::AwaitHeaders;
                    ColumnsAction::ReadHeaders
                } else {
                    self.phase = Phase::Finished;
                    ColumnsAction::Fail(ExtractError::UnknownVariant)
                }
            },
            Err(e) => {
                self.phase = Phase::Finished;
                ColumnsAction::Fail(e)
            },
        }
    }

    /// Takes the rendered header labels in document order. With none the
    /// table is missing; else the headers are lowercased and the position
    /// header is inserted at index 1.
    pub fn on_headers(&mut self, raw: Vec<String>) -> (a: ColumnsAction)
        requires
            old(self).wf(),
            old(self).phase_spec() == Phase::AwaitHeaders,
        ensures
            final(self).wf(),
            final(self).wanted_spec() == old(self).wanted_spec(),
            final(self).phase_spec() == Phase::Finished,
            final(self).switches_spec() == old(self).switches_spec(),
            raw@.len() == 0 ==> a == ColumnsAction::Fail(ExtractError::NotFound),
            raw@.len() > 0 ==> a is Done && texts(a->Done_0@) == headers_of(
                lowered_all(texts(raw@)),
            ),
    {
        self.phase = Phase::Finished;
        if raw.len() == 0 {
            ColumnsAction::Fail(ExtractError::NotFound)
        } else {
            ColumnsAction::Done(column_headers_from(raw))
        }
    }

    /// Takes a failure of the session; the request fails with it.
    pub fn on_failure(&mut self, e: ExtractError) -> (a: ColumnsAction)
        requires
            old(self).wf(),
        ensures
            final(self).wf(),
            a == ColumnsAction::Fail(e),
            final(self).wanted_spec() == old(self).wanted_spec(),
            final(self).phase_spec() == Phase::Finished,
            final(self).switches_spec() == old(self).switches_spec(),
    {
        self.phase = Phase::Finished;
        ColumnsAction::Fail(e)
    }
}

} // verus!
