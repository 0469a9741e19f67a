//! The consumer of readings, as a state machine. The caller owns the
//! transport and the persistence sink: it reports what they did as events,
//! and does what the machine answers.
//!
//! A message is parsed and validated. A message that is no reading, and a
//! reading that the table rejects, are dropped with an error to log, and the
//! loop goes on. An accepted reading goes to the sink; once it is stored its
//! abnormal values, if any, are shown with a recommendation. A failure of
//! the sink or of the transport ends the loop.

use crate::db::DbError;
use crate::models::{Field, VitalSigns, VitalSignsView};
use crate::parser::{parse_message, parse_message_spec, ParseError};
use crate::text::{join, join_strings, views};
use crate::training_data::{
    abnormal_display, abnormal_spec, accepted, display_abnormal, pairs_view, recommendation_spec,
    report_spec, standard_table, violations_spec, TrainingData, VitalRange,
};
use vstd::prelude::*;

verus! {

/// Why the consumer dropped a message or stopped, with the details.
#[derive(Debug, PartialEq)]
pub enum AgentError {
    WebSocketError(String),
    DatabaseError(String),
    ParseError(String),
    ValidationError(String),
    UrlParseError(String),
}

/// An error of the consumer, as mathematical values.
pub enum AgentErrorView {
    WebSocketError(Seq<char>),
    DatabaseError(Seq<char>),
    ParseError(Seq<char>),
    ValidationError(Seq<char>),
    UrlParseError(Seq<char>),
}

impl AgentErrorView {
    /// The sentence that reports the error.
    pub open spec fn text(self) -> Seq<char> {
        match self {
            AgentErrorView::WebSocketError(detail) => "WebSocket error: "@ + detail,
            AgentErrorView::DatabaseError(detail) => "Database error: "@ + detail,
            AgentErrorView::ParseError(detail) => "Parsing error: "@ + detail,
            AgentErrorView::ValidationError(detail) => "Validation error: "@ + detail,
            AgentErrorView::UrlParseError(detail) => "URL parse error: "@ + detail,
        }
    }

    /// The error ends the loop of its connection. A message that is no
    /// reading and a reading that is rejected do not: the loop drops them
    /// and goes on.
    pub open spec fn is_fatal(self) -> bool {
        !(self is ParseError || self is ValidationError)
    }
}

impl View for AgentError {
    type V = AgentErrorView;

    open spec fn view(&self) -> AgentErrorView {
        match self {
            AgentError::WebSocketError(detail) => AgentErrorView::WebSocketError(detail@),
            AgentError::DatabaseError(detail) => AgentErrorView::DatabaseError(detail@),
            AgentError::ParseError(detail) => AgentErrorView::ParseError(detail@),
            AgentError::ValidationError(detail) => AgentErrorView::ValidationError(detail@),
            AgentError::UrlParseError(detail) => AgentErrorView::UrlParseError(detail@),
        }
    }
}

impl AgentError {
    /// The sentence that reports the error.
    pub fn message(&self) -> (s: String)
        ensures
            s@ == self@.text(),
    {
        match self {
            AgentError::WebSocketError(detail) => {
                let mut s = "WebSocket error: ".to_owned();
                s.append(detail.as_str());
                s
            },
            AgentError::DatabaseError(detail) => {
                let mut s = "Database error: ".to_owned();
                s.append(detail.as_str());
                s
            },
            AgentError::ParseError(detail) => {
                let mut s = "Parsing error: ".to_owned();
                s.append(detail.as_str());
                s
            },
            AgentError::ValidationError(detail) => {
                let mut s = "Validation error: ".to_owned();
                s.append(detail.as_str());
                s
            },
            AgentError::UrlParseError(detail) => {
                let mut s = "URL parse error: ".to_owned();
                s.append(detail.as_str());
                s
            },
        }
    }

    /// Whether the error ends the loop of its connection.
    pub fn is_fatal(&self) -> (b: bool)
        ensures
            b == self@.is_fatal(),
    {
        match self {
            AgentError::ParseError(_) => false,
            AgentError::ValidationError(_) => false,
            _ => true,
        }
    }
}

/// Where the consumer of one connection stands.
#[derive(Debug, PartialEq)]
pub enum AgentState {
    /// Waiting for the next message.
    Receiving,
    /// An accepted reading is with the persistence sink.
    Storing(VitalSigns),
    /// The connection is over.
    Closed,
}

/// A state of the consumer, as mathematical values.
pub enum AgentStateView {
    Receiving,
    Storing(VitalSignsView),
    Closed,
}

impl View for AgentState {
    type V = AgentStateView;

    open spec fn view(&self) -> AgentStateView {
        match self {
            AgentState::Receiving => AgentStateView::Receiving,
            AgentState::Storing(vitals) => AgentStateView::Storing(vitals@),
            AgentState::Closed => AgentStateView::Closed,
        }
    }
}

/// What the transport or the persistence sink did.
#[derive(Debug, PartialEq)]
pub enum AgentEvent {
    /// A message arrived. `decoded` is what the structured decoding made of
    /// it: the reading, or `None` if the message is not in that shape.
    Message { text: String, decoded: Option<VitalSigns> },
    /// The stream ended.
    EndOfStream,
    /// The transport failed.
    TransportFailed(String),
    /// The sink stored the reading it was handed.
    Stored,
    /// The sink failed.
    StoreFailed(DbError),
}

/// An event, as mathematical values.
pub enum AgentEventView {
    Message { text: Seq<char>, decoded: Option<VitalSignsView> },
    EndOfStream,
    /// The transport failed, with the transport's words.
    TransportFailed(Seq<char>),
    Stored,
    StoreFailed(Seq<char>),
}

impl View for AgentEvent {
    type V = AgentEventView;

    open spec fn view(&self) -> AgentEventView {
        match self {
            AgentEvent::Message { text, decoded } => AgentEventView::Message {
                text: text@,
                decoded: match decoded {
                    Some(vitals) => Some(vitals@),
                    None => None,
                },
            },
            AgentEvent::EndOfStream => AgentEventView::EndOfStream,
            AgentEvent::TransportFailed(detail) => AgentEventView::TransportFailed(detail@),
            AgentEvent::Stored => AgentEventView::Stored,
            AgentEvent::StoreFailed(error) => AgentEventView::StoreFailed(error.detail()),
        }
    }
}

/// What the caller does next.
#[derive(Debug, PartialEq)]
pub enum AgentAction {
    /// Receive the next message.
    Receive,
    /// Log the error, then receive the next message.
    Discard(AgentError),
    /// Hand the reading to the persistence sink, and report what it did.
    Persist(VitalSigns),
    /// Show the abnormal values and the recommendation, then receive the
    /// next message.
    Alert { abnormal: Vec<(String, String)>, recommendation: String },
    /// Leave the loop with this outcome.
    Stop(Result<(), AgentError>),
}

/// An action, as mathematical values.
pub enum AgentActionView {
    Receive,
    Discard(AgentErrorView),
    Persist(VitalSignsView),
    Alert { abnormal: Seq<(Seq<char>, Seq<char>)>, recommendation: Seq<char> },
    Stop(Result<(), AgentErrorView>),
}

impl View for AgentAction {
    type V = AgentActionView;

    open spec fn view(&self) -> AgentActionView {
        match self {
            AgentAction::Receive => AgentActionView::Receive,
            AgentAction::Discard(error) => AgentActionView::Discard(error@),
            AgentAction::Persist(vitals) => AgentActionView::Persist(vitals@),
            AgentAction::Alert { abnormal, recommendation } => AgentActionView::Alert {
                abnormal: pairs_view(abnormal@),
                recommendation: recommendation@,
            },
            AgentAction::Stop(outcome) => AgentActionView::Stop(
                match outcome {
                    Ok(_) => Ok(()),
                    Err(error) => Err(error@),
                },
            ),
        }
    }
}

/// What is logged of a message that is no reading: why it is none, and the
/// message itself.
pub open spec fn parse_detail(error: ParseError, text: Seq<char>) -> Seq<char> {
    error.message_spec() + ": "@ + text
}

/// What the consumer makes of a message while it waits for one.
pub open spec fn on_message_spec(
    table: Map<Field, VitalRange>,
    patient_id: Seq<char>,
    text: Seq<char>,
    decoded: Option<VitalSignsView>,
) -> (AgentStateView, AgentActionView) {
    match parse_message_spec(text, decoded, patient_id) {
        Err(e) => (
            AgentStateView::Receiving,
            AgentActionView::Discard(AgentErrorView::ParseError(parse_detail(e, text))),
        ),
        Ok(vitals) => if accepted(table, vitals) {
            (AgentStateView::Storing(vitals), AgentActionView::Persist(vitals))
        } else {
            (
                AgentStateView::Receiving,
                AgentActionView::Discard(
                    AgentErrorView::ValidationError(report_spec(violations_spec(table, vitals))),
                ),
            )
        },
    }
}

/// What the consumer does once a reading is stored: it shows the abnormal
/// values, if there are any.
pub open spec fn on_stored_spec(
    table: Map<Field, VitalRange>,
    vitals: VitalSignsView,
) -> AgentActionView {
    if abnormal_spec(table, vitals).len() > 0 {
        AgentActionView::Alert {
            abnormal: abnormal_display(abnormal_spec(table, vitals)),
            recommendation: recommendation_spec(vitals),
        }
    } else {
        AgentActionView::Receive
    }
}

/// The next state and the action for a state and an event. An event that
/// the state does not wait for changes nothing: the action that the state
/// waits on is asked for again.
pub open spec fn step_spec(
    table: Map<Field, VitalRange>,
    patient_id: Seq<char>,
    state: AgentStateView,
    event: AgentEventView,
) -> (AgentStateView, AgentActionView) {
    match state {
        AgentStateView::Closed => (AgentStateView::Closed, AgentActionView::Stop(Ok(()))),
        AgentStateView::Receiving => match event {
            AgentEventView::Message { text, decoded } => on_message_spec(
                table,
                patient_id,
                text,
                decoded,
            ),
            AgentEventView::EndOfStream => (AgentStateView::Closed, AgentActionView::Stop(Ok(()))),
            AgentEventView::TransportFailed(detail) => (
                AgentStateView::Closed,
                AgentActionView::Stop(Err(AgentErrorView::WebSocketError(detail))),
            ),
            _ => (AgentStateView::Receiving, AgentActionView::Receive),
        },
        AgentStateView::Storing(vitals) => match event {
            AgentEventView::Stored => (AgentStateView::Receiving, on_stored_spec(table, vitals)),
            AgentEventView::StoreFailed(detail) => (
                AgentStateView::Closed,
                AgentActionView::Stop(Err(AgentErrorView::DatabaseError(detail))),
            ),
            _ => (AgentStateView::Storing(vitals), AgentActionView::Persist(vitals)),
        },
    }
}

/// The state after a run of events from `state`, and the actions that the
/// consumer answered with, one for each event.
pub open spec fn run_spec(
    table: Map<Field, VitalRange>,
    patient_id: Seq<char>,
    state: AgentStateView,
    events: Seq<AgentEventView>,
) -> (AgentStateView, Seq<AgentActionView>)
    decreases events.len(),
{
    if events.len() == 0 {
        (state, Seq::empty())
    } else {
        let (before, actions) = run_spec(table, patient_id, state, events.drop_last());
        let (after, action) = step_spec(table, patient_id, before, events.last());
        (after, actions.push(action))
    }
}

/// The state holds only what the machine puts there: a reading that is with
/// the sink is well formed and accepted by the table.
pub open spec fn state_wf(table: Map<Field, VitalRange>, state: AgentStateView) -> bool {
    match state {
        AgentStateView::Storing(vitals) => vitals.wf() && accepted(table, vitals),
        _ => true,
    }
}

/// The lines of an alert: one per abnormal value, a tab, the label, a colon
/// and the value.
pub open spec fn alert_lines(abnormal: Seq<(Seq<char>, Seq<char>)>) -> Seq<Seq<char>> {
    abnormal.map_values(|a: (Seq<char>, Seq<char>)| "\t"@ + a.0 + ": "@ + a.1)
}

/// The text of an alert: a heading, then the lines.
pub open spec fn alert_text(abnormal: Seq<(Seq<char>, Seq<char>)>) -> Seq<char> {
    "Abnormal Vital Signs Detected:\n"@ + join(alert_lines(abnormal), "\n"@)
}

/// Writes the text of an alert.
pub fn render_alert(abnormal: &Vec<(String, String)>) -> (s: String)
    ensures
        s@ == alert_text(pairs_view(abnormal@)),
{
    let mut lines: Vec<String> = Vec::new();
    let n = abnormal.len();
    let mut i: usize = 0;
    while i < n
        invariant
            i <= n,
            n == abnormal.len(),
            views(lines@) == alert_lines(pairs_view(abnormal@)).take(i as int),
        decreases n - i,
    {
        let ghost before = lines@;
        let mut line = "\t".to_owned();
        line.append(abnormal[i].0.as_str());
        line.append(": ");
        line.append(abnormal[i].1.as_str());
        lines.push(line);
        proof {
            let whole = alert_lines(pairs_view(abnormal@));
            assert(views(lines@) =~= views(before).push(whole[i as int]));
            assert(whole.take(i + 1) =~= whole.take(i as int).push(whole[i as int]));
        }
        i += 1;
    }
    assert(alert_lines(pairs_view(abnormal@)).take(n as int) =~= alert_lines(
        pairs_view(abnormal@),
    ));
    let body = join_strings(&lines, "\n");
    let mut s = "Abnormal Vital Signs Detected:\n".to_owned();
    s.append(body.as_str());
    s
}

/// The consumer of one connection: the table it validates against, and the
/// patient whose monitor sends compact messages on this connection. Neither
/// changes while the connection lives.
#[derive(Debug)]
pub struct Agent {
    table: TrainingData,
    patient_id: String,
}

impl Agent {
    /// The table that the consumer validates against.
    pub closed spec fn table(&self) -> Map<Field, VitalRange> {
        self.table@
    }

    /// The patient of the connection.
    pub closed spec fn patient(&self) -> Seq<char> {
        self.patient_id@
    }

    /// A consumer with the standard table.
    pub fn new(patient_id: String) -> (agent: Agent)
        ensures
            agent.table() == standard_table(),
            agent.patient() == patient_id@,
    {
        Agent { table: TrainingData::new(), patient_id }
    }

    /// A consumer with a table of its own.
    pub fn with_table(table: TrainingData, patient_id: String) -> (agent: Agent)
        ensures
            agent.table() == table@,
            agent.patient() == patient_id@,
    {
        Agent { table, patient_id }
    }

    /// The state in which a connection starts.
    pub fn start() -> (state: AgentState)
        ensures
            state@ == AgentStateView::Receiving,
    {
        AgentState::Receiving
    }

    /// Answers a message that arrived while the consumer waited for one.
    fn on_message(&self, text: String, decoded: Option<VitalSigns>) -> (next: (
        AgentState,
        AgentAction,
    ))
        ensures
            (next.0@, next.1@) == on_message_spec(
                self.table(),
                self.patient(),
                text@,
                match decoded {
                    Some(vitals) => Some(vitals@),
                    None => None,
                },
            ),
    {
        match parse_message(text.as_str(), decoded, self.patient_id.as_str()) {
            Err(e) => {
                let mut detail = e.message();
                detail.append(": ");
                detail.append(text.as_str());
                (AgentState::Receiving, AgentAction::Discard(AgentError::ParseError(detail)))
            },
            Ok(vitals) => match self.table.validate(&vitals) {
                Ok(_) => {
                    let copy = vitals.duplicate();
                    (AgentState::Storing(vitals), AgentAction::Persist(copy))
                },
                Err(report) => (
                    AgentState::Receiving,
                    AgentAction::Discard(AgentError::ValidationError(report)),
                ),
            },
        }
    }

    /// Answers the storing of a reading.
    fn on_stored(&self, vitals: &VitalSigns) -> (action: AgentAction)
        ensures
            action@ == on_stored_spec(self.table(), vitals@),
    {
        let found = self.table.abnormal(vitals);
        if found.len() > 0 {
            let abnormal = display_abnormal(&found);
            let recommendation = self.table.get_recommendation(vitals);
            AgentAction::Alert { abnormal, recommendation }
        } else {
            AgentAction::Receive
        }
    }

    /// The next state and the action for a state and an event.
    pub fn step(&self, state: AgentState, event: AgentEvent) -> (next: (AgentState, AgentAction))
        ensures
            (next.0@, next.1@) == step_spec(self.table(), self.patient(), state@, event@),
    {
        match state {
            AgentState::Closed => (AgentState::Closed, AgentAction::Stop(Ok(()))),
            AgentState::Receiving => match event {
                AgentEvent::Message { text, decoded } => self.on_message(text, decoded),
                AgentEvent::EndOfStream => (AgentState::Closed, AgentAction::Stop(Ok(()))),
                AgentEvent::TransportFailed(detail) => (
                    AgentState::Closed,
                    AgentAction::Stop(Err(AgentError::WebSocketError(detail))),
                ),
                _ => (AgentState::Receiving, AgentAction::Receive),
            },
            AgentState::Storing(vitals) => match event {
                AgentEvent::Stored => {
                    let action = self.on_stored(&vitals);
                    (AgentState::Receiving, action)
                },
                AgentEvent::StoreFailed(DbError::OperationError(detail)) => (
                    AgentState::Closed,
                    AgentAction::Stop(Err(AgentError::DatabaseError(detail))),
                ),
                _ => {
                    let copy = vitals.duplicate();
                    (AgentState::Storing(vitals), AgentAction::Persist(copy))
                },
            },
        }
    }
}

} // verus!
