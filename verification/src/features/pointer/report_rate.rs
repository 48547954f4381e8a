//! The polling-frequency panel.

use crate::hid::ReportRateHz;
use crate::services::device_reads::shown;
use crate::state::load::{Load, ReportRateStatus};
use crate::state::report_rate::DEFAULT_REPORT_RATE;
use crate::state::AppState;
use crate::text::{decimal, push_decimal, push_text};
use vstd::prelude::*;

verus! {

/// What the panel reads off the state.
#[derive(Debug)]
pub struct ReportRatePanelSnapshot {
    pub device_key: String,
    pub rate: ReportRateHz,
    pub status: ReportRateStatus,
    /// Whether the device can be reached. One that cannot is never read.
    pub reachable: bool,
}

/// What the panel reads off the state. Without a device nothing can be set, and
/// `no_device` says so.
pub fn report_rate_panel_snapshot(state: Option<&AppState>, no_device: &str) -> (snapshot:
    ReportRatePanelSnapshot)
    ensures
        match (state, snapshot) {
            (
                Some(state),
                ReportRatePanelSnapshot { device_key, rate, status, reachable },
            ) if state.current() is Some => {
                &&& device_key@ == state.current()->0.config_key@
                &&& rate == state.pointer.report_rate
                &&& status == shown(state.pointer.reads.report_rate@, device_key@)
                &&& reachable == (state.current()->0.route is Some)
            },
            (_, ReportRatePanelSnapshot { device_key, rate, status, reachable }) => {
                &&& device_key@ == ""@
                &&& rate == DEFAULT_REPORT_RATE
                &&& (status matches Load::Unsupported(reason) && reason@ == no_device@)
                &&& !reachable
            },
        },
{
    if let Some(state) = state {
        if let Some(record) = state.current_record() {
            return ReportRatePanelSnapshot {
                device_key: record.config_key.clone(),
                rate: state.report_rate(),
                status: state.report_rate_status_for(record.config_key.as_str()),
                reachable: record.route.is_some(),
            };
        }
    }
    ReportRatePanelSnapshot {
        device_key: "".to_owned(),
        rate: DEFAULT_REPORT_RATE,
        status: Load::Unsupported(no_device.to_owned()),
        reachable: false,
    }
}

/// A chip for a frequency.
#[derive(Debug, Clone, Copy, PartialEq, Eq, Structural)]
pub struct RateChip {
    pub rate: ReportRateHz,
    pub active: bool,
}

/// What the panel shows.
#[derive(Debug)]
pub enum RateBody {
    /// The frequencies that the device supports, and the least and greatest of
    /// them.
    Chips { chips: Vec<RateChip>, min: ReportRateHz, max: ReportRateHz },
    Offline,
    Reading,
    /// The read failed; a click tries again.
    Retry,
    Unsupported,
}

/// The chips of the frequencies `values`.
pub open spec fn chips_of(values: Seq<u16>, rate: ReportRateHz) -> Seq<RateChip> {
    values.map_values(|value: u16| RateChip { rate: value, active: value == rate })
}

/// Whether `body` is what the panel shows of a read.
pub open spec fn body_of(
    body: RateBody,
    status: ReportRateStatus,
    rate: ReportRateHz,
    reachable: bool,
) -> bool {
    match status {
        Load::Ready(info) => body matches RateBody::Chips { chips, min, max } && chips@ == chips_of(
            info.capabilities@,
            rate,
        ) && min == info.capabilities@[0] && max == info.capabilities@.last(),
        Load::Failed(_) => body is Retry,
        Load::Unsupported(_) => body is Unsupported,
        _ => if reachable {
            body is Reading
        } else {
            body is Offline
        },
    }
}

/// What the panel shows of a read.
pub fn rate_body(status: &ReportRateStatus, rate: ReportRateHz, reachable: bool) -> (body: RateBody)
    ensures
        body_of(body, *status, rate, reachable),
{
    match status {
        Load::Ready(info) => {
            let values = info.capabilities.values();
            let mut chips: Vec<RateChip> = Vec::new();
            let mut i: usize = 0;
            while i < values.len()
                invariant
                    i <= values@.len(),
                    chips@ =~= chips_of(values@, rate).take(i as int),
                decreases values@.len() - i,
            {
                chips.push(RateChip { rate: values[i], active: values[i] == rate });
                i += 1;
            }
            assert(chips@ =~= chips_of(values@, rate));
            RateBody::Chips { chips, min: info.capabilities.min(), max: info.capabilities.max() }
        },
        Load::Failed(_) => RateBody::Retry,
        Load::Unsupported(_) => RateBody::Unsupported,
        _ => if reachable {
            RateBody::Reading
        } else {
            RateBody::Offline
        },
    }
}

/// The panel, which keeps nothing of its own.
#[derive(Debug, Clone, Copy, PartialEq, Eq, Structural)]
pub struct ReportRatePanel {}

/// What the panel shows.
#[derive(Debug)]
pub struct ReportRateView {
    pub value: String,
    pub body: RateBody,
}

impl ReportRatePanel {
    /// The panel.
    pub fn new() -> (panel: Self)
        ensures
            panel == (ReportRatePanel {  }),
    {
        ReportRatePanel {  }
    }

    /// What the panel shows of a snapshot.
    pub fn render(&self, snapshot: &ReportRatePanelSnapshot) -> (view: ReportRateView)
        ensures
            view.value@ == decimal(snapshot.rate as nat) + " Hz"@,
            body_of(view.body, snapshot.status, snapshot.rate, snapshot.reachable),
    {
        ReportRateView {
            value: rate_text(snapshot.rate),
            body: rate_body(&snapshot.status, snapshot.rate, snapshot.reachable),
        }
    }
}

/// A frequency with its unit.
pub fn rate_text(rate: ReportRateHz) -> (text: String)
    ensures
        text@ == decimal(rate as nat) + " Hz"@,
{
    let mut text = String::new();
    push_decimal(&mut text, rate as u64);
    assert(text@ =~= decimal(rate as nat));
    push_text(&mut text, " Hz");
    text
}

} // verus!
