//! The SmartShift panel: the wheel's mode, the ratchet's threshold and whether
//! the ratchet ever lets go.

use crate::hid::{
    SmartShiftAutoDisengage, SmartShiftMode, SmartShiftStatus, SmartShiftThreshold,
};
use crate::state::event::StateEvent;
use crate::state::load::{Load, SmartShiftLoad};
use crate::state::smartshift::SmartShiftWriteStatus;
use crate::state::AppState;
use vstd::prelude::*;

verus! {

/// The least threshold that the slider offers; below it the wheel spins free
/// at the gentlest scroll.
pub const THRESHOLD_MIN: u8 = 8;

/// The greatest threshold that the slider offers.
pub const THRESHOLD_MAX: u8 = 50;

/// The threshold that is shown where the device's own is out of use.
pub const DEFAULT_THRESHOLD: u8 = 16;

/// A threshold as the panel shows it: one below the band is replaced by the
/// default, one above it by the greatest.
pub open spec fn banded(value: u8) -> u8 {
    if value < THRESHOLD_MIN {
        DEFAULT_THRESHOLD
    } else if value > THRESHOLD_MAX {
        THRESHOLD_MAX
    } else {
        value
    }
}

/// A threshold as the panel shows it.
pub fn clamp_threshold(value: SmartShiftThreshold) -> (shown: SmartShiftThreshold)
    ensures
        shown.value == banded(value.value),
{
    if value.value < THRESHOLD_MIN {
        SmartShiftThreshold { value: DEFAULT_THRESHOLD }
    } else if value.value > THRESHOLD_MAX {
        SmartShiftThreshold { value: THRESHOLD_MAX }
    } else {
        value
    }
}

/// A slider's value as a threshold.
pub open spec fn slid(raw: u8) -> u8 {
    if raw < THRESHOLD_MIN {
        THRESHOLD_MIN
    } else if raw > THRESHOLD_MAX {
        THRESHOLD_MAX
    } else {
        raw
    }
}

/// A slider's value as a threshold.
pub fn threshold_from_slider(raw: u8) -> (threshold: SmartShiftThreshold)
    ensures
        threshold.value == slid(raw),
{
    let value: u8 = if raw < THRESHOLD_MIN {
        THRESHOLD_MIN
    } else if raw > THRESHOLD_MAX {
        THRESHOLD_MAX
    } else {
        raw
    };
    SmartShiftThreshold { value }
}

/// The panel: what its sliders last showed, and what is being dragged.
#[derive(Debug, Clone, Copy, PartialEq, Eq, Structural)]
pub struct SmartShiftPanel {
    pub last_threshold: SmartShiftThreshold,
    pub pending_threshold: Option<SmartShiftThreshold>,
    pub last_wheel_sensitivity: u8,
    pub pending_wheel_sensitivity: Option<u8>,
}

/// What the panel shows of a device's configuration.
#[derive(Debug, Clone, Copy, PartialEq, Eq, Structural)]
pub struct ReadyBody {
    pub ratchet: bool,
    pub permanent: bool,
    /// Whether the threshold can be changed.
    pub sensitivity_enabled: bool,
    /// The threshold that is shown.
    pub display: SmartShiftThreshold,
    /// Where the slider has to be moved to.
    pub reseat: Option<SmartShiftThreshold>,
    /// What a click on the free mode writes.
    pub free: SmartShiftStatus,
    /// What a click on the ratchet mode writes.
    pub ratcheted: SmartShiftStatus,
    /// The threshold that leaving the permanent ratchet brings back.
    pub restore: SmartShiftThreshold,
    /// The thumb wheel's sensitivity.
    pub wheel: WheelRow,
}

/// What is shown of the thumb wheel's sensitivity, and where its slider has to
/// be moved to.
#[derive(Debug, Clone, Copy, PartialEq, Eq, Structural)]
pub struct WheelRow {
    pub display: u8,
    pub reseat: Option<u8>,
}

/// A sensitivity to be saved for the device that is kept under `config_key`.
#[derive(Debug)]
pub struct SensitivityChange {
    pub config_key: String,
    pub value: u8,
    pub event: StateEvent,
}

/// The sensitivity that counts: the device's, or else the default.
pub open spec fn sensitivity_of(committed: Option<u8>, default: u8) -> u8 {
    match committed {
        Some(value) => value,
        None => default,
    }
}

/// Whether the wheel's slider has to follow a change from elsewhere.
pub open spec fn wheel_moves(panel: SmartShiftPanel, committed: Option<u8>, default: u8) -> bool {
    panel.pending_wheel_sensitivity is None && sensitivity_of(committed, default)
        != panel.last_wheel_sensitivity
}

/// The row that a panel shows of the thumb wheel.
pub open spec fn wheel_row(panel: SmartShiftPanel, committed: Option<u8>, default: u8) -> WheelRow {
    WheelRow {
        display: match panel.pending_wheel_sensitivity {
            Some(pending) => pending,
            None => sensitivity_of(committed, default),
        },
        reseat: if wheel_moves(panel, committed, default) {
            Some(sensitivity_of(committed, default))
        } else {
            None
        },
    }
}

/// A panel once its wheel's slider follows.
pub open spec fn wheel_reseated(
    panel: SmartShiftPanel,
    committed: Option<u8>,
    default: u8,
) -> SmartShiftPanel {
    SmartShiftPanel {
        last_wheel_sensitivity: if wheel_moves(panel, committed, default) {
            sensitivity_of(committed, default)
        } else {
            panel.last_wheel_sensitivity
        },
        ..panel
    }
}

/// Whether `body` is what a panel shows of a device's configuration and of its
/// thumb wheel, and `after` is the panel afterwards.
pub open spec fn shows_body(
    before: SmartShiftPanel,
    after: SmartShiftPanel,
    status: SmartShiftStatus,
    sensitivity: Option<u8>,
    default: u8,
    body: ReadyBody,
) -> bool {
    let committed = before.committed(status);
    let permanent = status.auto_disengage is Permanent;
    let moves = !permanent && before.pending_threshold is None && committed
        != before.last_threshold;
    &&& after == (SmartShiftPanel {
        last_threshold: if moves {
            committed
        } else {
            before.last_threshold
        },
        ..wheel_reseated(before, sensitivity, default)
    })
    &&& body.wheel == wheel_row(before, sensitivity, default)
    &&& body.ratchet == (status.mode == SmartShiftMode::Ratchet)
    &&& body.permanent == permanent
    &&& body.sensitivity_enabled == (body.ratchet && !permanent)
    &&& body.display == match before.pending_threshold {
        Some(pending) => pending,
        None => committed,
    }
    &&& body.reseat == if moves {
        Some(committed)
    } else {
        None
    }
    &&& body.free == (SmartShiftStatus { mode: SmartShiftMode::Free, ..status })
    &&& body.ratcheted == (SmartShiftStatus {
        mode: SmartShiftMode::Ratchet,
        auto_disengage: SmartShiftAutoDisengage::Threshold(committed),
        ..status
    })
    &&& body.restore == committed
}

impl SmartShiftPanel {
    /// Whether the panel's thresholds lie in the slider's band.
    pub open spec fn well_formed(self) -> bool {
        &&& THRESHOLD_MIN <= self.last_threshold.value <= THRESHOLD_MAX
        &&& self.pending_threshold matches Some(pending) ==> THRESHOLD_MIN <= pending.value
            <= THRESHOLD_MAX
    }

    /// The panel before a device was read.
    pub fn new(default_sensitivity: u8) -> (panel: Self)
        ensures
            panel == (SmartShiftPanel {
                last_threshold: SmartShiftThreshold { value: DEFAULT_THRESHOLD },
                pending_threshold: None,
                last_wheel_sensitivity: default_sensitivity,
                pending_wheel_sensitivity: None,
            }),
            panel.well_formed(),
    {
        SmartShiftPanel {
            last_threshold: SmartShiftThreshold { value: DEFAULT_THRESHOLD },
            pending_threshold: None,
            last_wheel_sensitivity: default_sensitivity,
            pending_wheel_sensitivity: None,
        }
    }

    /// The threshold is being dragged.
    pub fn drag_threshold(&mut self, raw: u8)
        requires
            old(self).well_formed(),
        ensures
            final(self).well_formed(),
            *final(self) == (SmartShiftPanel {
                pending_threshold: Some(SmartShiftThreshold { value: slid(raw) }),
                ..*old(self)
            }),
    {
        self.pending_threshold = Some(threshold_from_slider(raw));
    }

    /// The threshold was let go: what has to be written, if the device's
    /// configuration is known.
    pub fn release_threshold(&mut self, raw: u8, status: Option<SmartShiftStatus>) -> (write: Option<
        SmartShiftStatus,
    >)
        requires
            old(self).well_formed(),
        ensures
            final(self).well_formed(),
            *final(self) == (SmartShiftPanel {
                pending_threshold: None,
                last_threshold: SmartShiftThreshold { value: slid(raw) },
                ..*old(self)
            }),
            write == match status {
                None => None,
                Some(status) => Some(
                    SmartShiftStatus {
                        mode: SmartShiftMode::Ratchet,
                        auto_disengage: SmartShiftAutoDisengage::Threshold(
                            SmartShiftThreshold { value: slid(raw) },
                        ),
                        ..status
                    },
                ),
            },
    {
        let threshold = threshold_from_slider(raw);
        self.pending_threshold = None;
        self.last_threshold = threshold;
        match status {
            None => None,
            Some(status) => Some(
                SmartShiftStatus {
                    mode: SmartShiftMode::Ratchet,
                    auto_disengage: SmartShiftAutoDisengage::Threshold(threshold),
                    tunable_torque: status.tunable_torque,
                },
            ),
        }
    }

    /// The threshold that counts: the device's, or the last real one while the
    /// ratchet is permanent.
    pub open spec fn committed(self, status: SmartShiftStatus) -> SmartShiftThreshold {
        match status.auto_disengage {
            SmartShiftAutoDisengage::Threshold(threshold) => SmartShiftThreshold {
                value: banded(threshold.value),
            },
            SmartShiftAutoDisengage::Permanent => self.last_threshold,
        }
    }

    /// What the panel shows of a device's configuration. The slider follows a
    /// change from elsewhere, but never while it is dragged.
    pub fn ready_body(
        &mut self,
        status: SmartShiftStatus,
        sensitivity: Option<u8>,
        default: u8,
    ) -> (body: ReadyBody)
        requires
            old(self).well_formed(),
        ensures
            final(self).well_formed(),
            shows_body(*old(self), *final(self), status, sensitivity, default, body),
    {
        let permanent = match status.auto_disengage {
            SmartShiftAutoDisengage::Permanent => true,
            SmartShiftAutoDisengage::Threshold(_) => false,
        };
        let ratchet = status.mode == SmartShiftMode::Ratchet;
        let committed = match status.auto_disengage {
            SmartShiftAutoDisengage::Threshold(threshold) => clamp_threshold(threshold),
            SmartShiftAutoDisengage::Permanent => self.last_threshold,
        };
        let mut reseat: Option<SmartShiftThreshold> = None;
        if !permanent && self.pending_threshold.is_none() && committed != self.last_threshold {
            self.last_threshold = committed;
            reseat = Some(committed);
        }
        let display = match self.pending_threshold {
            Some(pending) => pending,
            None => committed,
        };
        let restore = if permanent {
            self.last_threshold
        } else {
            committed
        };
        let wheel = self.wheel_sensitivity_row(sensitivity, default);
        ReadyBody {
            ratchet,
            permanent,
            sensitivity_enabled: ratchet && !permanent,
            display,
            reseat,
            free: SmartShiftStatus {
                mode: SmartShiftMode::Free,
                auto_disengage: status.auto_disengage,
                tunable_torque: status.tunable_torque,
            },
            ratcheted: SmartShiftStatus {
                mode: SmartShiftMode::Ratchet,
                auto_disengage: SmartShiftAutoDisengage::Threshold(committed),
                tunable_torque: status.tunable_torque,
            },
            restore,
            wheel,
        }
    }

    /// The thumb wheel's sensitivity is being dragged.
    pub fn drag_wheel_sensitivity(&mut self, value: u8)
        ensures
            *final(self) == (SmartShiftPanel {
                pending_wheel_sensitivity: Some(value),
                ..*old(self)
            }),
    {
        self.pending_wheel_sensitivity = Some(value);
    }

    /// The thumb wheel's sensitivity was let go: what has to be saved for the
    /// selected device, and what the panels are told.
    pub fn release_wheel_sensitivity(&mut self, value: u8, state: Option<&AppState>) -> (change:
        Option<SensitivityChange>)
        ensures
            *final(self) == (SmartShiftPanel {
                pending_wheel_sensitivity: None,
                last_wheel_sensitivity: value,
                ..*old(self)
            }),
            ({
                let record = match state {
                    Some(state) => state.current(),
                    None => None,
                };
                match change {
                    Some(change) => {
                        &&& record matches Some(record)
                        &&& change.config_key@ == record.config_key@
                        &&& change.value == value
                        &&& change.event matches StateEvent::DeviceConfigChanged(key)
                        &&& key@ == record.config_key@
                    },
                    None => record is None,
                }
            }),
    {
        self.pending_wheel_sensitivity = None;
        self.last_wheel_sensitivity = value;
        match state {
            Some(state) => match state.current_record() {
                Some(record) => Some(
                    SensitivityChange {
                        config_key: record.config_key.clone(),
                        value,
                        event: StateEvent::DeviceConfigChanged(record.config_key.clone()),
                    },
                ),
                None => None,
            },
            None => None,
        }
    }

    /// The sensitivity that is shown, which is that of the selected device
    /// (`committed`) or else the default. The slider follows a change from
    /// elsewhere, but never while it is dragged.
    pub fn wheel_sensitivity_row(&mut self, committed: Option<u8>, default: u8) -> (row: WheelRow)
        ensures
            row == wheel_row(*old(self), committed, default),
            *final(self) == wheel_reseated(*old(self), committed, default),
    {
        let value: u8 = match committed {
            Some(value) => value,
            None => default,
        };
        let mut reseat: Option<u8> = None;
        if self.pending_wheel_sensitivity.is_none() && value != self.last_wheel_sensitivity {
            self.last_wheel_sensitivity = value;
            reseat = Some(value);
        }
        let display: u8 = match self.pending_wheel_sensitivity {
            Some(pending) => pending,
            None => value,
        };
        WheelRow { display, reseat }
    }
}

/// What flipping the permanent ratchet writes.
pub open spec fn flipped(
    status: SmartShiftStatus,
    permanent: bool,
    restore: SmartShiftThreshold,
) -> SmartShiftStatus {
    SmartShiftStatus {
        mode: SmartShiftMode::Ratchet,
        auto_disengage: if permanent {
            SmartShiftAutoDisengage::Permanent
        } else {
            SmartShiftAutoDisengage::Threshold(restore)
        },
        ..status
    }
}

/// What flipping the permanent ratchet writes.
pub fn flip_permanent(
    status: SmartShiftStatus,
    permanent: bool,
    restore: SmartShiftThreshold,
) -> (write: SmartShiftStatus)
    ensures
        write == flipped(status, permanent, restore),
{
    SmartShiftStatus {
        mode: SmartShiftMode::Ratchet,
        auto_disengage: if permanent {
            SmartShiftAutoDisengage::Permanent
        } else {
            SmartShiftAutoDisengage::Threshold(restore)
        },
        tunable_torque: status.tunable_torque,
    }
}

/// What the panel shows.
#[derive(Debug, Clone, Copy, PartialEq, Eq, Structural)]
pub enum SmartShiftContent {
    Ready(SmartShiftStatus),
    Offline,
    Reading,
    /// The read failed; a click tries again.
    Retry,
    Unsupported,
}

/// What the panel shows of a read. A device out of reach is never read, so it
/// is not said to be.
pub open spec fn content_of(status: SmartShiftLoad, reachable: bool) -> SmartShiftContent {
    match status {
        Load::Ready(status) => SmartShiftContent::Ready(*status),
        Load::Failed(_) => SmartShiftContent::Retry,
        Load::Unsupported(_) => SmartShiftContent::Unsupported,
        _ => if reachable {
            SmartShiftContent::Reading
        } else {
            SmartShiftContent::Offline
        },
    }
}

/// What the panel shows of a read.
pub fn smartshift_content(status: &SmartShiftLoad, reachable: bool) -> (content: SmartShiftContent)
    ensures
        content == content_of(*status, reachable),
{
    match status {
        Load::Ready(status) => SmartShiftContent::Ready(**status),
        Load::Failed(_) => SmartShiftContent::Retry,
        Load::Unsupported(_) => SmartShiftContent::Unsupported,
        _ => if reachable {
            SmartShiftContent::Reading
        } else {
            SmartShiftContent::Offline
        },
    }
}

/// What is said of the last write.
#[derive(Debug, Clone, Copy, PartialEq, Eq, Structural)]
pub enum WriteFeedback {
    Reading,
    Done,
    Retry,
}

/// What is said of the last write, while the configuration is shown.
pub open spec fn feedback_of(
    content: SmartShiftContent,
    status: Option<SmartShiftWriteStatus>,
) -> Option<WriteFeedback> {
    match (content, status) {
        (SmartShiftContent::Ready(_), Some(SmartShiftWriteStatus::Applying { .. })) => Some(
            WriteFeedback::Reading,
        ),
        (SmartShiftContent::Ready(_), Some(SmartShiftWriteStatus::Confirmed)) => Some(
            WriteFeedback::Done,
        ),
        (SmartShiftContent::Ready(_), Some(SmartShiftWriteStatus::Failed)) => Some(
            WriteFeedback::Retry,
        ),
        _ => None,
    }
}

/// What is said of the last write, while the configuration is shown.
pub fn smartshift_write_feedback(
    content: SmartShiftContent,
    status: Option<SmartShiftWriteStatus>,
) -> (feedback: Option<WriteFeedback>)
    ensures
        feedback == feedback_of(content, status),
{
    match (content, status) {
        (SmartShiftContent::Ready(_), Some(SmartShiftWriteStatus::Applying { .. })) => Some(
            WriteFeedback::Reading,
        ),
        (SmartShiftContent::Ready(_), Some(SmartShiftWriteStatus::Confirmed)) => Some(
            WriteFeedback::Done,
        ),
        (SmartShiftContent::Ready(_), Some(SmartShiftWriteStatus::Failed)) => Some(
            WriteFeedback::Retry,
        ),
        _ => None,
    }
}

/// What the panel shows of the selected device.
#[derive(Debug)]
pub struct SmartShiftView {
    pub content: SmartShiftContent,
    /// The controls, where the configuration is known.
    pub body: Option<ReadyBody>,
    pub feedback: Option<WriteFeedback>,
}

/// The selected device's read, as the panel takes it.
pub open spec fn current_load(state: Option<&AppState>) -> SmartShiftLoad {
    match state {
        Some(state) => match state.current() {
            Some(record) => match state.smartshift_load_of(record.config_key@) {
                Some(load) => load,
                None => Load::Unknown,
            },
            None => Load::Unknown,
        },
        None => Load::Unknown,
    }
}

/// Whether the selected device can be reached.
pub open spec fn current_reachable(state: Option<&AppState>) -> bool {
    match state {
        Some(state) => match state.current() {
            Some(record) => record.route is Some,
            None => false,
        },
        None => false,
    }
}

impl SmartShiftPanel {
    /// What the panel shows of the selected device, whose thumb wheel has the
    /// sensitivity `sensitivity`; without a device it is `default`.
    pub fn render(
        &mut self,
        state: Option<&AppState>,
        sensitivity: Option<u8>,
        default: u8,
    ) -> (view: SmartShiftView)
        requires
            old(self).well_formed(),
        ensures
            final(self).well_formed(),
            view.content == content_of(current_load(state), current_reachable(state)),
            match (view.content, view.body) {
                (SmartShiftContent::Ready(status), Some(body)) => shows_body(
                    *old(self),
                    *final(self),
                    status,
                    sensitivity,
                    default,
                    body,
                ),
                (SmartShiftContent::Ready(_), None) => false,
                (_, Some(_)) => false,
                (_, None) => *final(self) == *old(self),
            },
            view.feedback == feedback_of(
                view.content,
                match state {
                    Some(state) => state.current_write_status(),
                    None => None,
                },
            ),
    {
        let content = match state {
            Some(state) => match state.current_record() {
                Some(record) => smartshift_content(
                    &state.smartshift_status_for(record.config_key.as_str()),
                    record.route.is_some(),
                ),
                None => smartshift_content(&Load::Unknown, false),
            },
            None => smartshift_content(&Load::Unknown, false),
        };
        let written = match state {
            Some(state) => state.current_smartshift_write_status(),
            None => None,
        };
        let body = match content {
            SmartShiftContent::Ready(status) => Some(
                self.ready_body(status, sensitivity, default),
            ),
            _ => None,
        };
        SmartShiftView { content, body, feedback: smartshift_write_feedback(content, written) }
    }
}

/// Whatever a device reports, the panel shows and writes thresholds of the
/// band, and switching to the ratchet never makes it permanent.
pub proof fn thresholds_stay_in_the_band(panel: SmartShiftPanel, status: SmartShiftStatus)
    requires
        panel.well_formed(),
    ensures
        THRESHOLD_MIN <= panel.committed(status).value <= THRESHOLD_MAX,
        THRESHOLD_MIN <= banded(panel.committed(status).value) <= THRESHOLD_MAX,
        banded(panel.committed(status).value) == panel.committed(status).value,
{
}

/// Leaving the permanent ratchet brings back the threshold that was in use
/// before it.
pub proof fn permanence_can_be_left(panel: SmartShiftPanel, status: SmartShiftStatus)
    requires
        panel.well_formed(),
        status.auto_disengage is Threshold,
        panel.last_threshold == panel.committed(status),
    ensures
        ({
            let permanent = flipped(status, true, panel.committed(status));
            flipped(permanent, false, panel.committed(permanent)).auto_disengage
                == SmartShiftAutoDisengage::Threshold(panel.committed(status))
        }),
{
}

} // verus!
