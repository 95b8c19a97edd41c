use vstd::prelude::*;
use ocpp_rs::v21::messages::boot_notification::{
    BootNotificationRequest, BootNotificationResponse, BootReasonEnumType, ChargingStationType,
    ModemType, RegistrationStatusEnumType,
};
use crate::correlation::{CorrelationError, CorrelationTable, Outcome, PendingRequest, Resolution, has_id};
use crate::envelope::{Envelope, call_frame, encode};
use crate::transport::{ConnectionError, WebsocketClient};

verus! {

/// The wireless modem of an EVSE.
#[derive(Debug, Clone)]
pub struct Modem {
    pub iccid: Option<String>,
    pub imsi: Option<String>,
}

/// The identity an EVSE announces at boot; never changed after construction.
#[derive(Debug)]
pub struct EVSEProperties {
    pub serial_number: String,
    pub make: String,
    pub model: String,
    pub firmware_version: String,
    pub modem: Option<Modem>,
}

pub open spec fn opt_view(o: Option<String>) -> Option<Seq<char>> {
    match o {
        Some(s) => Some(s@),
        None => None,
    }
}

pub open spec fn modem_view(m: Option<Modem>) -> Option<(Option<Seq<char>>, Option<Seq<char>>)> {
    match m {
        Some(m) => Some((opt_view(m.iccid), opt_view(m.imsi))),
        None => None,
    }
}

/// Why the station (re)booted.
#[derive(Debug, Clone, Copy, PartialEq, Eq, Structural)]
pub enum BootReason {
    ApplicationReset,
    FirmwareUpdate,
    LocalReset,
    PowerUp,
    RemoteReset,
    ScheduledReset,
    Triggered,
    Unknown,
    Watchdog,
}

/// The JSON text of the boot-notification request for a station with this
/// boot reason, serial number, vendor, model, firmware version and modem.
pub uninterp spec fn boot_request_json(
    reason: BootReason,
    serial: Seq<char>,
    make: Seq<char>,
    model: Seq<char>,
    firmware: Seq<char>,
    modem: Option<(Option<Seq<char>>, Option<Seq<char>>)>,
) -> Seq<char>;

impl Default for EVSEProperties {
    fn default() -> (r: Self)
        ensures
            r.serial_number@ == Seq::<char>::empty(),
            r.make@ == Seq::<char>::empty(),
            r.model@ == Seq::<char>::empty(),
            r.firmware_version@ == Seq::<char>::empty(),
            r.modem is None,
    {
        EVSEProperties {
            serial_number: String::new(),
            make: String::new(),
            model: String::new(),
            firmware_version: String::new(),
            modem: None,
        }
    }
}

impl EVSEProperties {
    pub open spec fn boot_payload(&self, reason: BootReason) -> Seq<char> {
        boot_request_json(
            reason,
            self.serial_number@,
            self.make@,
            self.model@,
            self.firmware_version@,
            modem_view(self.modem),
        )
    }

    /// The endpoint is configured on the client, not on the properties.
    pub fn new(
        serial_number: String,
        make: String,
        model: String,
        firmware_version: String,
        modem: Option<Modem>,
        _csms_endpoint: &str,
    ) -> (r: Self)
        ensures
            r.serial_number == serial_number,
            r.make == make,
            r.model == model,
            r.firmware_version == firmware_version,
            r.modem == modem,
    {
        EVSEProperties { serial_number, make, model, firmware_version, modem }
    }
}

/// Relies on serde_json::to_string on ocpp_rs's BootNotificationRequest: the
/// request's JSON text, a function of the fields handed over alone.
#[verifier::external_body]
fn boot_request_text(p: &EVSEProperties, reason: BootReason) -> (r: String)
    ensures
        r@ == boot_request_json(
            reason,
            p.serial_number@,
            p.make@,
            p.model@,
            p.firmware_version@,
            modem_view(p.modem),
        ),
{
    let modem = p.modem.clone().map(|m| ModemType { iccid: m.iccid, imsi: m.imsi, custom_data: None });
    let charging_station = ChargingStationType { serial_number: Some(p.serial_number.clone()), model: p.model.clone(), modem, vendor_name: p.make.clone(), firmware_version: Some(p.firmware_version.clone()), custom_data: None };
    let reason = match reason {
        BootReason::ApplicationReset => BootReasonEnumType::ApplicationReset,
        BootReason::FirmwareUpdate => BootReasonEnumType::FirmwareUpdate,
        BootReason::LocalReset => BootReasonEnumType::LocalReset,
        BootReason::PowerUp => BootReasonEnumType::PowerUp,
        BootReason::RemoteReset => BootReasonEnumType::RemoteReset,
        BootReason::ScheduledReset => BootReasonEnumType::ScheduledReset,
        BootReason::Triggered => BootReasonEnumType::Triggered,
        BootReason::Unknown => BootReasonEnumType::Unknown,
        BootReason::Watchdog => BootReasonEnumType::Watchdog,
    };
    serde_json::to_string(&BootNotificationRequest { charging_station, reason, custom_data: None }).unwrap_or_default()
}

#[derive(Debug, Clone, Copy, PartialEq, Eq, Structural)]
pub enum BootStatus {
    Accepted,
    Pending,
    Rejected,
}

/// The parts of a boot-notification response that drive the session.
#[derive(Debug, Clone, Copy, PartialEq, Eq, Structural)]
pub struct BootResponse {
    pub status: BootStatus,
    /// The CSMS's retry or heartbeat interval in seconds.
    pub interval: i32,
}

/// What a call-result payload says as a boot-notification response; `None`
/// where it is not one.
pub uninterp spec fn boot_response_of(payload: Seq<char>) -> Option<BootResponse>;

/// Relies on serde_json::from_str into ocpp_rs's BootNotificationResponse: it
/// succeeds exactly on payloads of that schema; the status and interval are
/// copied over.
#[verifier::external_body]
fn parse_boot_response(payload: &str) -> (r: Option<BootResponse>)
    ensures
        r == boot_response_of(payload@),
{
    let resp: BootNotificationResponse = serde_json::from_str(payload).ok()?;
    let status = match resp.status {
        RegistrationStatusEnumType::Accepted => BootStatus::Accepted,
        RegistrationStatusEnumType::Pending => BootStatus::Pending,
        RegistrationStatusEnumType::Rejected => BootStatus::Rejected,
    };
    Some(BootResponse { status, interval: resp.interval })
}

pub open spec fn is_lower_hex(c: char) -> bool {
    ('0' <= c && c <= '9') || ('a' <= c && c <= 'f')
}

/// Relies on uuid's `Uuid::new_v4().simple().to_string()`: a fresh random
/// UUID written as 32 lowercase hexadecimal digits.
#[verifier::external_body]
fn fresh_message_id() -> (r: String)
    ensures
        r@.len() == 32,
        forall|i: int| 0 <= i < 32 ==> is_lower_hex(#[trigger] r@[i]),
{
    uuid::Uuid::new_v4().simple().to_string()
}

/// Timing and retry configuration of the boot sequence, in seconds.
#[derive(Debug, Clone, Copy)]
pub struct BootPolicy {
    /// How long a boot request may stay unanswered.
    pub request_timeout: u64,
    /// Retry delay after `Pending` or `Rejected` when the CSMS gives none.
    pub default_backoff: u64,
    /// Retry delay after a timeout or a lost connection.
    pub reconnect_backoff: u64,
    /// How many rejections are retried; `None` retries forever.
    pub max_boot_retries: Option<u64>,
}

impl BootPolicy {
    pub fn standard() -> (r: Self)
        ensures
            r.request_timeout == 30,
            r.default_backoff == 60,
            r.reconnect_backoff == 5,
            r.max_boot_retries is None,
    {
        BootPolicy {
            request_timeout: 30,
            default_backoff: 60,
            reconnect_backoff: 5,
            max_boot_retries: None,
        }
    }
}

/// The device lifecycle.
#[derive(Debug)]
pub enum SessionState {
    Unbooted,
    /// A boot request with this message ID is outstanding.
    AwaitingBootResponse(String),
    Pending,
    Rejected,
    Operational,
}

/// What the caller does next after a boot request resolved.
#[derive(Debug, Clone, Copy, PartialEq, Eq, Structural)]
pub enum BootStep {
    /// Boot accepted: proceed to steady-state operation.
    Proceed,
    /// Boot again after this many seconds.
    RetryAfter(u64),
    /// Boot again this many seconds after the transport is connected again.
    RetryWhenConnected(u64),
    /// The configured number of rejections is used up.
    GiveUp,
    /// The resolution is not the outstanding boot request's.
    Ignored,
}

/// The retry delay: the CSMS's interval where it gave a positive one, else
/// the default.
pub open spec fn retry_delay(interval: i32, default: u64) -> u64 {
    if interval > 0 {
        interval as u64
    } else {
        default
    }
}

/// A boot attempt still to be made.
#[derive(Debug, Clone, Copy, PartialEq, Eq, Structural)]
pub enum RetryPlan {
    /// Boot again at this time.
    At(u64),
    /// Boot again this many seconds after the transport is connected again.
    AfterReconnect(u64),
}

pub open spec fn saturating_sum(a: u64, b: u64) -> u64 {
    if a + b > u64::MAX {
        u64::MAX
    } else {
        (a + b) as u64
    }
}

/// The boot retry to keep after `step` was taken at time `now`, given the
/// retry planned so far.
pub fn plan_retry(step: BootStep, now: u64, current: Option<RetryPlan>) -> (r: Option<RetryPlan>)
    ensures
        match step {
            BootStep::RetryAfter(d) => r == Some(RetryPlan::At(saturating_sum(now, d))),
            BootStep::RetryWhenConnected(d) => r == Some(RetryPlan::AfterReconnect(d)),
            BootStep::Proceed | BootStep::GiveUp => r is None,
            BootStep::Ignored => r == current,
        },
{
    match step {
        BootStep::RetryAfter(d) => Some(RetryPlan::At(now.saturating_add(d))),
        BootStep::RetryWhenConnected(d) => Some(RetryPlan::AfterReconnect(d)),
        BootStep::Proceed | BootStep::GiveUp => None,
        BootStep::Ignored => current,
    }
}

/// The plan once the transport is connected again at time `now`: a retry
/// that waited for the connection is due its backoff later.
pub fn plan_on_reconnect(current: Option<RetryPlan>, now: u64) -> (r: Option<RetryPlan>)
    ensures
        match current {
            Some(RetryPlan::AfterReconnect(d)) => r == Some(RetryPlan::At(saturating_sum(now, d))),
            _ => r == current,
        },
{
    match current {
        Some(RetryPlan::AfterReconnect(d)) => Some(RetryPlan::At(now.saturating_add(d))),
        _ => current,
    }
}

/// Whether the planned boot retry is due at time `now`.
pub fn retry_due(plan: Option<RetryPlan>, now: u64) -> (r: bool)
    ensures
        r == match plan {
            Some(RetryPlan::At(t)) => t <= now,
            _ => false,
        },
{
    match plan {
        Some(RetryPlan::At(t)) => t <= now,
        _ => false,
    }
}

/// A station before its connection is up.
pub struct BaseEVSE {
    pub properties: EVSEProperties,
    pub websocket: WebsocketClient,
}

impl Default for BaseEVSE {
    /// Empty properties and an empty endpoint.
    fn default() -> (r: Self)
        ensures
            r.properties.serial_number@ == Seq::<char>::empty(),
            r.properties.make@ == Seq::<char>::empty(),
            r.properties.model@ == Seq::<char>::empty(),
            r.properties.firmware_version@ == Seq::<char>::empty(),
            r.properties.modem is None,
            r.websocket.spec_address() == Seq::<char>::empty(),
            r.websocket.spec_status() == crate::transport::ConnectionStatus::Disconnected,
            r.websocket.pending_frames() == Seq::<String>::empty(),
    {
        proof {
            reveal_strlit("");
        }
        BaseEVSE { properties: EVSEProperties::default(), websocket: WebsocketClient::new("") }
    }
}

impl BaseEVSE {
    pub fn new(properties: EVSEProperties, csms_endpoint: &str) -> (r: Self)
        ensures
            r.properties == properties,
            r.websocket.spec_address() == csms_endpoint@,
            r.websocket.spec_status() == crate::transport::ConnectionStatus::Disconnected,
            r.websocket.pending_frames() == Seq::<String>::empty(),
    {
        BaseEVSE { properties, websocket: WebsocketClient::new(csms_endpoint) }
    }

    /// Starts connecting to the CSMS; the handshake itself is the caller's.
    pub fn connect_websocket(&mut self) -> (r: Result<(), ConnectionError>)
        ensures
            final(self).properties == old(self).properties,
            crate::transport::address_accepted(old(self).websocket.spec_address()) ==> r is Ok
                && final(self).websocket.spec_status()
                == crate::transport::ConnectionStatus::Connecting,
            !crate::transport::address_accepted(old(self).websocket.spec_address()) ==> r
                == Err::<(), _>(ConnectionError::InvalidAddress) && final(self).websocket.spec_status()
                == old(self).websocket.spec_status(),
            final(self).websocket.pending_frames() == old(self).websocket.pending_frames(),
    {
        self.websocket.connect()
    }

    /// The running station, unbooted, with an empty correlation table.
    pub fn into_alive(self, policy: BootPolicy) -> (r: AliveEVSE)
        ensures
            r.properties == self.properties,
            r.websocket == self.websocket,
            r.table@ == Seq::<PendingRequest>::empty(),
            r.wf(),
            r.spec_state() is Unbooted,
            r.spec_rejections() == 0,
            r.policy == policy,
    {
        AliveEVSE {
            properties: self.properties,
            websocket: self.websocket,
            table: CorrelationTable::new(),
            state: SessionState::Unbooted,
            rejections: 0,
            policy,
        }
    }
}

/// A connected station running its session.
pub struct AliveEVSE {
    pub properties: EVSEProperties,
    pub websocket: WebsocketClient,
    pub table: CorrelationTable,
    pub policy: BootPolicy,
    pub state: SessionState,
    pub rejections: u64,
}

/// The boot request with message ID `id` was registered at `now` and its
/// frame queued behind what was queued before.
pub open spec fn boot_sent(before: AliveEVSE, after: AliveEVSE, id: Seq<char>, now: u64) -> bool {
    &&& after.table@.len() == before.table@.len() + 1
    &&& after.table@.drop_last() == before.table@
    &&& after.table@.last().message_id@ == id
    &&& after.table@.last().sent_at == now
    &&& after.table@.last().timeout == before.policy.request_timeout
    &&& after.websocket.pending_frames().len() == before.websocket.pending_frames().len() + 1
    &&& after.websocket.pending_frames().drop_last() == before.websocket.pending_frames()
    &&& after.websocket.pending_frames().last()@ == call_frame(
        id,
        "BootNotification"@,
        before.properties.boot_payload(BootReason::PowerUp),
    )
    &&& after.websocket.spec_status() == before.websocket.spec_status()
    &&& match after.spec_state() {
        SessionState::AwaitingBootResponse(s) => s@ == id,
        _ => false,
    }
}

/// Nothing that the session state machine owns changed.
pub open spec fn unchanged(before: AliveEVSE, after: AliveEVSE) -> bool {
    &&& after.table@ == before.table@
    &&& after.websocket == before.websocket
    &&& after.spec_state() == before.spec_state()
    &&& after.spec_rejections() == before.spec_rejections()
}

/// Whether the `n`-th rejection is past the configured retry limit.
pub open spec fn retries_exhausted(max: Option<u64>, n: int) -> bool {
    match max {
        Some(m) => n > m,
        None => false,
    }
}

/// How the session answers a boot response; `None` counts as a rejection
/// without an interval.
pub open spec fn responded(before: AliveEVSE, after: AliveEVSE, response: Option<BootResponse>, r: BootStep) -> bool {
            match response {
                Some(BootResponse { status: BootStatus::Accepted, .. }) => r == BootStep::Proceed
                    && after.spec_state() is Operational && after.spec_rejections() == 0,
                Some(BootResponse { status: BootStatus::Pending, interval }) => r == BootStep::RetryAfter(
                    retry_delay(interval, before.policy.default_backoff),
                ) && after.spec_state() is Pending && after.spec_rejections() == before.spec_rejections(),
                _ => {
                    let interval = match response {
                        Some(resp) => resp.interval,
                        None => 0,
                    };
                    let n = before.spec_rejections() as int + 1;
                    &&& after.spec_state() is Rejected
                    &&& after.spec_rejections() as int == if n > u64::MAX {
                        u64::MAX as int
                    } else {
                        n
                    }
                    &&& r == if retries_exhausted(before.policy.max_boot_retries, n) {
                        BootStep::GiveUp
                    } else {
                        BootStep::RetryAfter(retry_delay(interval, before.policy.default_backoff))
                    }
                },
            }
}

impl AliveEVSE {
    pub open spec fn spec_state(&self) -> SessionState {
        self.state
    }

    pub open spec fn spec_rejections(&self) -> u64 {
        self.rejections
    }

    pub open spec fn wf(&self) -> bool {
        self.table.wf()
    }

    pub fn state(&self) -> (r: &SessionState)
        ensures
            *r == self.spec_state(),
    {
        &self.state
    }

    /// How many rejections since the last acceptance.
    pub fn rejections(&self) -> (r: u64)
        ensures
            r == self.spec_rejections(),
    {
        self.rejections
    }

    /// The boot-notification request payload for this station and reason.
    pub fn get_boot_notification(&self, reason: BootReason) -> (r: String)
        ensures
            r@ == self.properties.boot_payload(reason),
    {
        boot_request_text(&self.properties, reason)
    }

    /// Queues a frame for the CSMS.
    pub fn send_message(&mut self, frame: String)
        ensures
            final(self).properties == old(self).properties,
            final(self).table == old(self).table,
            final(self).policy == old(self).policy,
            final(self).spec_state() == old(self).spec_state(),
            final(self).spec_rejections() == old(self).spec_rejections(),
            final(self).websocket.spec_status() == old(self).websocket.spec_status(),
            final(self).websocket.spec_address() == old(self).websocket.spec_address(),
            final(self).websocket.pending_frames() == old(self).websocket.pending_frames().push(
                frame,
            ),
    {
        self.websocket.push_message(frame);
    }

    /// Sends a power-up boot notification under `message_id` at time `now`: the request
    /// is registered with the correlation table and its `Call` frame queued.
    /// A message ID that is already pending fails and changes nothing.
    pub fn boot_with_id(&mut self, message_id: String, now: u64) -> (r: Result<(), CorrelationError>)
        requires
            old(self).wf(),
        ensures
            final(self).wf(),
            final(self).properties == old(self).properties,
            final(self).policy == old(self).policy,
            final(self).spec_rejections() == old(self).spec_rejections(),
            has_id(old(self).table@, message_id@) ==> r == Err::<(), _>(
                CorrelationError::DuplicateId,
            ) && unchanged(*old(self), *final(self)),
            !has_id(old(self).table@, message_id@) ==> r is Ok && boot_sent(
                *old(self),
                *final(self),
                message_id@,
                now,
            ),
    {
        proof {
            reveal_strlit("BootNotification");
        }
        let payload = self.get_boot_notification(BootReason::PowerUp);
        let env = Envelope::Call {
            message_id: message_id.clone(),
            action: String::from_str("BootNotification"),
            payload,
        };
        let frame = encode(&env);
        let id = message_id.clone();
        match self.table.register(message_id, now, self.policy.request_timeout) {
            Err(e) => Err(e),
            Ok(()) => {
                self.websocket.push_message(frame);
                self.state = SessionState::AwaitingBootResponse(id);
                proof {
                    assert(self.table@.drop_last() =~= old(self).table@);
                    assert(self.websocket.pending_frames().drop_last()
                        =~= old(self).websocket.pending_frames());
                }
                Ok(())
            },
        }
    }

    /// Sends a boot notification under a fresh message ID at time `now`.
    pub fn boot(&mut self, now: u64) -> (r: Result<(), CorrelationError>)
        requires
            old(self).wf(),
        ensures
            final(self).wf(),
            final(self).properties == old(self).properties,
            final(self).policy == old(self).policy,
            r is Err ==> r == Err::<(), _>(CorrelationError::DuplicateId) && unchanged(
                *old(self),
                *final(self),
            ),
            r is Err ==> exists|id: Seq<char>| id.len() == 32 && has_id(old(self).table@, id),
            r is Ok ==> exists|id: Seq<char>|
                id.len() == 32 && !has_id(old(self).table@, id) && boot_sent(
                    *old(self),
                    *final(self),
                    id,
                    now,
                ),
    {
        let id = fresh_message_id();
        self.boot_with_id(id, now)
    }

    /// Applies the CSMS's answer to the boot request: `None` stands for a
    /// response that is not a boot-notification response, or a `CallError`,
    /// and counts as a rejection without an interval.
    pub fn on_boot_response(&mut self, response: Option<BootResponse>) -> (r: BootStep)
        ensures
            final(self).properties == old(self).properties,
            final(self).policy == old(self).policy,
            final(self).table == old(self).table,
            final(self).websocket == old(self).websocket,
            responded(*old(self), *final(self), response, r),
    {
        let (status, interval) = match response {
            Some(resp) => (resp.status, resp.interval),
            None => (BootStatus::Rejected, 0i32),
        };
        let delay = if interval > 0 {
            interval as u64
        } else {
            self.policy.default_backoff
        };
        match status {
            BootStatus::Accepted => {
                self.state = SessionState::Operational;
                self.rejections = 0;
                BootStep::Proceed
            },
            BootStatus::Pending => {
                self.state = SessionState::Pending;
                BootStep::RetryAfter(delay)
            },
            BootStatus::Rejected => {
                let exhausted = match self.policy.max_boot_retries {
                    Some(m) => self.rejections >= m,
                    None => false,
                };
                self.rejections = self.rejections.saturating_add(1);
                self.state = SessionState::Rejected;
                if exhausted {
                    BootStep::GiveUp
                } else {
                    BootStep::RetryAfter(delay)
                }
            },
        }
    }

    /// Applies how the boot request ended. A timeout or a lost connection
    /// returns the session to `Unbooted` and retries once connected.
    pub fn on_boot_outcome(&mut self, outcome: &Outcome) -> (r: BootStep)
        ensures
            final(self).properties == old(self).properties,
            final(self).policy == old(self).policy,
            final(self).table == old(self).table,
            final(self).websocket == old(self).websocket,
            match outcome {
                Outcome::Timeout | Outcome::ConnectionLost => r == BootStep::RetryWhenConnected(
                    old(self).policy.reconnect_backoff,
                ) && final(self).spec_state() is Unbooted && final(self).spec_rejections() == old(
                    self,
                ).spec_rejections(),
                Outcome::Response(p) => responded(*old(self), *final(self), boot_response_of(p@), r),
                Outcome::Failed { .. } => responded(*old(self), *final(self), None, r),
            },
    {
        match outcome {
            Outcome::Timeout | Outcome::ConnectionLost => {
                self.state = SessionState::Unbooted;
                BootStep::RetryWhenConnected(self.policy.reconnect_backoff)
            },
            Outcome::Response(p) => self.on_boot_response(parse_boot_response(p.as_str())),
            Outcome::Failed { .. } => self.on_boot_response(None),
        }
    }

    /// Hands a resolution to the session: the outstanding boot request's goes
    /// to `on_boot_outcome`, any other is ignored.
    pub fn on_resolution(&mut self, resolution: &Resolution) -> (r: BootStep)
        ensures
            final(self).properties == old(self).properties,
            final(self).policy == old(self).policy,
            final(self).table == old(self).table,
            final(self).websocket == old(self).websocket,
            match old(self).spec_state() {
                SessionState::AwaitingBootResponse(id) if id@ == resolution.message_id@ => match resolution.outcome {
                    Outcome::Timeout | Outcome::ConnectionLost => r == BootStep::RetryWhenConnected(
                        old(self).policy.reconnect_backoff,
                    ) && final(self).spec_state() is Unbooted && final(self).spec_rejections()
                        == old(self).spec_rejections(),
                    Outcome::Response(p) => responded(*old(self), *final(self), boot_response_of(p@), r),
                    Outcome::Failed { .. } => responded(*old(self), *final(self), None, r),
                },
                _ => r == BootStep::Ignored && final(self).spec_state() == old(self).spec_state()
                    && final(self).spec_rejections() == old(self).spec_rejections(),
            },
    {
        let matches_boot = match &self.state {
            SessionState::AwaitingBootResponse(id) => *id == resolution.message_id,
            _ => false,
        };
        if matches_boot {
            self.on_boot_outcome(&resolution.outcome)
        } else {
            BootStep::Ignored
        }
    }
}

} // verus!
