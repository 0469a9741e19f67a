//! What holds of the library as a whole, proved over the specifications
//! that the contracts of its functions use.

use crate::agent::{
    on_stored_spec, run_spec, state_wf, step_spec, AgentActionView, AgentErrorView,
    AgentEventView, AgentStateView,
};
use crate::models::{Field, VitalSignsView};
use crate::parser::{
    after_label, compact_message_spec, compact_text, first_mark, looks_structured, parse_bodies,
    parse_compact_spec, parse_message_spec, three_segments, Compact, ParseError,
};
use crate::server::Draws;
use crate::text::{
    contains_text, decimal, digit_char, digit_value, digits, find, is_digit, is_numeral,
    is_space, lemma_find, lemma_find_bounds, numeral_value, occurs_at, parse_i32_spec, trim,
};
use crate::training_data::{
    abnormal_of, abnormal_spec, accepted, messages_spec, ranges_nested, recommendation_spec,
    report_spec, standard_range, standard_table, value_text, violation_of, violations_spec,
    VitalRange, Violation,
};
use vstd::prelude::*;

verus! {

/// A reading without any core channel violates no table, and no table
/// finds anything abnormal in it.
pub proof fn law_blank_reading_passes(table: Map<Field, VitalRange>, vitals: VitalSignsView)
    requires
        vitals.is_blank(),
    ensures
        violations_spec(table, vitals) == Seq::<Violation>::empty(),
        accepted(table, vitals),
        abnormal_spec(table, vitals) == Seq::<(Field, i32)>::empty(),
{
    assert(vitals.get(Field::HeartRate) is None);
    assert(vitals.get(Field::BloodPressureSystolic) is None);
    assert(vitals.get(Field::BloodPressureDiastolic) is None);
    assert(vitals.get(Field::OxygenSaturation) is None);
    assert(vitals.get(Field::RespiratoryRate) is None);
    assert(vitals.get(Field::Temperature) is None);
    assert(violations_spec(table, vitals) =~= Seq::<Violation>::empty());
    assert(abnormal_spec(table, vitals) =~= Seq::<(Field, i32)>::empty());
}

/// A channel without an entry in the table is unbounded: no value of it is
/// a violation or abnormal.
pub proof fn law_unlisted_channel_is_unbounded(
    table: Map<Field, VitalRange>,
    vitals: VitalSignsView,
    field: Field,
)
    requires
        !table.contains_key(field),
    ensures
        violation_of(table, vitals, field) == Seq::<Violation>::empty(),
        abnormal_of(table, vitals, field) == Seq::<(Field, i32)>::empty(),
{
}

/// The standard table and the heart rate. When no other channel violates
/// the table, a reading with a heart rate from 30 to 200 is accepted, and a
/// reading with any other heart rate has exactly one violation: that of the
/// heart rate, with the value and the two bounds.
pub proof fn law_heart_rate_bounds(vitals: VitalSignsView, heart_rate: i32)
    requires
        vitals.heart_rate == Some(heart_rate),
        forall|f: Field|
            f != Field::HeartRate ==> (#[trigger] violation_of(standard_table(), vitals, f)).len()
                == 0,
    ensures
        30 <= heart_rate <= 200 ==> accepted(standard_table(), vitals),
        !(30 <= heart_rate <= 200) ==> violations_spec(standard_table(), vitals) == seq![
            Violation { field: Field::HeartRate, value: heart_rate, min: 30, max: 200 },
        ],
{
    let table = standard_table();
    assert(violation_of(table, vitals, Field::BloodPressureSystolic) =~= Seq::empty());
    assert(violation_of(table, vitals, Field::BloodPressureDiastolic) =~= Seq::empty());
    assert(violation_of(table, vitals, Field::OxygenSaturation) =~= Seq::empty());
    assert(violation_of(table, vitals, Field::RespiratoryRate) =~= Seq::empty());
    assert(violation_of(table, vitals, Field::Temperature) =~= Seq::empty());
    assert(vitals.get(Field::HeartRate) == Some(heart_rate));
    assert(table[Field::HeartRate] == standard_range(Field::HeartRate));
    if 30 <= heart_rate <= 200 {
        assert(violations_spec(table, vitals) =~= Seq::empty());
    } else {
        assert(violations_spec(table, vitals) =~= seq![
            Violation { field: Field::HeartRate, value: heart_rate, min: 30, max: 200 },
        ]);
    }
}

/// The message of a violation begins with the name of the channel and
/// holds the numerals of the offending value and of the two bounds.
pub proof fn law_message_names_channel_value_and_bounds(violation: Violation)
    ensures
        violation.field.name_spec().is_prefix_of(violation.text()),
        contains_text(violation.text(), value_text(violation.field, violation.value)),
        contains_text(violation.text(), value_text(violation.field, violation.min)),
        contains_text(violation.text(), value_text(violation.field, violation.max)),
{
    let name = violation.field.name_spec();
    let value = value_text(violation.field, violation.value);
    let min = value_text(violation.field, violation.min);
    let max = value_text(violation.field, violation.max);
    let text = violation.text();
    let at_value: int = (name.len() + " "@.len()) as int;
    let at_min: int = at_value + value.len() + " out of range ("@.len();
    let at_max: int = at_min + min.len() + "-"@.len();
    assert(text.subrange(0, name.len() as int) =~= name);
    assert(text.subrange(at_value, at_value + value.len()) =~= value);
    assert(text.subrange(at_min, at_min + min.len()) =~= min);
    assert(text.subrange(at_max, at_max + max.len()) =~= max);
    assert(occurs_at(text, value, at_value));
    assert(occurs_at(text, min, at_min));
    assert(occurs_at(text, max, at_max));
}

/// The report of a single violation is its message.
pub proof fn law_report_of_one(violation: Violation)
    ensures
        report_spec(seq![violation]) == violation.text(),
{
    assert(messages_spec(seq![violation]) =~= seq![violation.text()]);
}

/// What is flagged depends on the heart rate, the two pressures and the
/// oxygen saturation alone: readings that agree on these four channels have
/// the same abnormal values, whatever their other channels, their patient
/// and their extra channels are.
pub proof fn law_alerts_look_at_four_channels(
    table: Map<Field, VitalRange>,
    one: VitalSignsView,
    other: VitalSignsView,
)
    requires
        one.heart_rate == other.heart_rate,
        one.blood_pressure_systolic == other.blood_pressure_systolic,
        one.blood_pressure_diastolic == other.blood_pressure_diastolic,
        one.oxygen_saturation == other.oxygen_saturation,
    ensures
        abnormal_spec(table, one) == abnormal_spec(table, other),
{
    assert(one.get(Field::HeartRate) == other.get(Field::HeartRate));
    assert(one.get(Field::BloodPressureSystolic) == other.get(Field::BloodPressureSystolic));
    assert(one.get(Field::BloodPressureDiastolic) == other.get(Field::BloodPressureDiastolic));
    assert(one.get(Field::OxygenSaturation) == other.get(Field::OxygenSaturation));
}

/// In a table whose normal bands lie inside its plausible ranges, a value
/// that is a violation is abnormal too; so a channel of an accepted reading
/// that is flagged lies inside its plausible range and outside its normal
/// band.
pub proof fn law_normal_is_plausible(
    table: Map<Field, VitalRange>,
    vitals: VitalSignsView,
    field: Field,
)
    requires
        ranges_nested(table),
    ensures
        violation_of(table, vitals, field).len() > 0 ==> abnormal_of(table, vitals, field).len()
            > 0,
        abnormal_of(table, vitals, field).len() > 0 && violation_of(table, vitals, field).len()
            == 0 ==> {
            &&& vitals.get(field) matches Some(value)
            &&& table[field].admits(value)
            &&& !table[field].is_normal(value)
        },
{
    if table.contains_key(field) {
        assert(table[field].nested());
    }
}

/// The standard table has every normal band inside its plausible range.
pub proof fn law_standard_table_nested()
    ensures
        ranges_nested(standard_table()),
{
    let table = standard_table();
    assert forall|f: Field| table.contains_key(f) implies (#[trigger] table[f]).nested() by {
        assert(table[f] == standard_range(f));
    }
}

/// Under the standard table, a reading without abnormal values gets the
/// recommendation that no action is required, and a reading with an oxygen
/// saturation below 90 has an abnormal value.
pub proof fn law_recommendation_follows_alert(vitals: VitalSignsView)
    ensures
        abnormal_spec(standard_table(), vitals).len() == 0 ==> recommendation_spec(vitals)
            == "No immediate action required."@,
        recommendation_spec(vitals) == "Consider supplemental oxygen."@ ==> abnormal_spec(
            standard_table(),
            vitals,
        ).len() > 0,
{
    let table = standard_table();
    assert(table[Field::OxygenSaturation] == standard_range(Field::OxygenSaturation));
    assert(vitals.get(Field::OxygenSaturation) == vitals.oxygen_saturation);
    if let Some(o2) = vitals.oxygen_saturation {
        if o2 < 90 {
            assert(abnormal_of(table, vitals, Field::OxygenSaturation).len() == 1);
        } else {
            sentences_differ();
        }
    } else {
        sentences_differ();
    }
}

/// The two recommendations are different sentences.
proof fn sentences_differ()
    ensures
        "Consider supplemental oxygen."@ != "No immediate action required."@,
{
    reveal_strlit("Consider supplemental oxygen.");
    reveal_strlit("No immediate action required.");
    assert("Consider supplemental oxygen."@[0] == 'C');
    assert("No immediate action required."@[0] == 'N');
}

/// Numbers drawn from the bands of their channels make a reading that is
/// well formed and that the standard table accepts.
pub proof fn law_drawn_reading_is_accepted(draws: Draws)
    requires
        draws.in_bands(),
    ensures
        draws.reading().wf(),
        accepted(standard_table(), draws.reading()),
{
    let vitals = draws.reading();
    let table = standard_table();
    assert forall|f: Field| (#[trigger] violation_of(table, vitals, f)).len() == 0 by {
        assert(table[f] == standard_range(f));
    }
    assert(violations_spec(table, vitals) =~= Seq::empty());
    reveal_strlit("patient1");
    reveal_strlit("CVP");
    reveal_strlit("PAP_systolic");
    let names = vitals.param_names();
    assert(names[0] == "CVP"@);
    assert(names[1] == "PAP_systolic"@);
    assert(names[0].len() != names[1].len());
}

/// The consumer hands the sink only well-formed readings that the table
/// accepts, and raises an alert only on a reading that the sink has stored.
/// A reading with a violation is therefore never stored and never reaches
/// the evaluation of alerts.
pub proof fn law_only_accepted_readings_go_on(
    table: Map<Field, VitalRange>,
    patient_id: Seq<char>,
    state: AgentStateView,
    event: AgentEventView,
)
    requires
        state_wf(table, state),
    ensures
        ({
            let (next, action) = step_spec(table, patient_id, state, event);
            &&& state_wf(table, next)
            &&& action matches AgentActionView::Persist(vitals) ==> vitals.wf() && accepted(
                table,
                vitals,
            ) && next == AgentStateView::Storing(vitals)
            &&& action is Alert ==> (state matches AgentStateView::Storing(vitals) && accepted(
                table,
                vitals,
            ) && event is Stored && action == on_stored_spec(table, vitals))
        }),
{
    match state {
        AgentStateView::Receiving => match event {
            AgentEventView::Message { text, decoded } => {
                let parsed = parse_message_spec(text, decoded, patient_id);
                if let Ok(vitals) = parsed {
                    law_parsed_is_well_formed(text, decoded, patient_id);
                }
            },
            _ => {},
        },
        _ => {},
    }
}

/// Whatever events a connection brings, from its start on the consumer
/// hands the sink only well-formed readings that the table accepts.
pub proof fn law_runs_store_only_accepted_readings(
    table: Map<Field, VitalRange>,
    patient_id: Seq<char>,
    events: Seq<AgentEventView>,
)
    ensures
        ({
            let (state, actions) = run_spec(table, patient_id, AgentStateView::Receiving, events);
            &&& state_wf(table, state)
            &&& actions.len() == events.len()
            &&& forall|i: int|
                0 <= i < actions.len() ==> (#[trigger] actions[i] matches AgentActionView::Persist(
                    vitals,
                ) ==> vitals.wf() && accepted(table, vitals))
        }),
    decreases events.len(),
{
    if events.len() > 0 {
        law_runs_store_only_accepted_readings(table, patient_id, events.drop_last());
        let earlier = run_spec(table, patient_id, AgentStateView::Receiving, events.drop_last());
        law_only_accepted_readings_go_on(table, patient_id, earlier.0, events.last());
    }
}

/// The state of a connection after the first `i` events of a run.
pub open spec fn state_after(
    table: Map<Field, VitalRange>,
    patient_id: Seq<char>,
    events: Seq<AgentEventView>,
    i: int,
) -> AgentStateView {
    run_spec(table, patient_id, AgentStateView::Receiving, events.take(i)).0
}

/// A run is made of steps: its action at `i` is the answer to the event at
/// `i` in the state after the events before it, and the state after that
/// event is the next state of that step.
pub proof fn law_runs_are_made_of_steps(
    table: Map<Field, VitalRange>,
    patient_id: Seq<char>,
    events: Seq<AgentEventView>,
    i: int,
)
    requires
        0 <= i < events.len(),
    ensures
        ({
            let actions = run_spec(table, patient_id, AgentStateView::Receiving, events).1;
            let step = step_spec(
                table,
                patient_id,
                state_after(table, patient_id, events, i),
                events[i],
            );
            &&& actions.len() == events.len()
            &&& actions[i] == step.1
            &&& state_after(table, patient_id, events, i + 1) == step.0
            &&& state_after(table, patient_id, events, 0) == AgentStateView::Receiving
        }),
    decreases events.len(),
{
    let earlier = events.drop_last();
    law_runs_store_only_accepted_readings(table, patient_id, events);
    law_runs_store_only_accepted_readings(table, patient_id, earlier);
    assert(events.take(0) =~= Seq::empty());
    if i == events.len() - 1 {
        assert(events.take(i) =~= earlier);
        assert(events.take(i + 1) =~= events);
    } else {
        law_runs_are_made_of_steps(table, patient_id, earlier, i);
        assert(earlier.take(i) =~= events.take(i));
        assert(earlier.take(i + 1) =~= events.take(i + 1));
    }
}

/// In a run from the start of a connection, an alert is raised only on the
/// reading that the step before handed to the sink, and only when the sink
/// reports it stored. So a reading reaches the evaluation of alerts only
/// after it was accepted and stored.
pub proof fn law_runs_alert_only_on_stored_readings(
    table: Map<Field, VitalRange>,
    patient_id: Seq<char>,
    events: Seq<AgentEventView>,
    i: int,
)
    requires
        0 <= i < events.len(),
        run_spec(table, patient_id, AgentStateView::Receiving, events).1[i] is Alert,
    ensures
        ({
            let actions = run_spec(table, patient_id, AgentStateView::Receiving, events).1;
            &&& i > 0
            &&& events[i] is Stored
            &&& actions[i - 1] matches AgentActionView::Persist(vitals) && accepted(table, vitals)
                && actions[i] == on_stored_spec(table, vitals)
        }),
{
    law_runs_are_made_of_steps(table, patient_id, events, i);
    law_runs_store_only_accepted_readings(table, patient_id, events.take(i));
    let state = state_after(table, patient_id, events, i);
    law_only_accepted_readings_go_on(table, patient_id, state, events[i]);
    assert(state is Storing);
    if i > 0 {
        law_runs_are_made_of_steps(table, patient_id, events, i - 1);
    }
}

/// In a run, once the consumer has stopped it stays stopped: every later
/// event is answered by stopping without an error.
pub proof fn law_runs_stay_stopped(
    table: Map<Field, VitalRange>,
    patient_id: Seq<char>,
    events: Seq<AgentEventView>,
    i: int,
    j: int,
)
    requires
        0 <= i < j < events.len(),
        run_spec(table, patient_id, AgentStateView::Receiving, events).1[i] is Stop,
    ensures
        run_spec(table, patient_id, AgentStateView::Receiving, events).1[j]
            == AgentActionView::Stop(Ok::<(), AgentErrorView>(())),
        state_after(table, patient_id, events, j) == AgentStateView::Closed,
    decreases j - i,
{
    law_runs_are_made_of_steps(table, patient_id, events, i);
    law_runs_are_made_of_steps(table, patient_id, events, j);
    if j > i + 1 {
        law_runs_stay_stopped(table, patient_id, events, i, j - 1);
        law_runs_are_made_of_steps(table, patient_id, events, j - 1);
    }
}

/// Every reading that the parser yields is well formed.
pub proof fn law_parsed_is_well_formed(
    text: Seq<char>,
    decoded: Option<VitalSignsView>,
    patient_id: Seq<char>,
)
    ensures
        parse_message_spec(text, decoded, patient_id) matches Ok(vitals) ==> vitals.wf(),
{
    if let Ok(vitals) = parse_message_spec(text, decoded, patient_id) {
        if decoded is None {
            assert(vitals.param_names() =~= Seq::empty());
        }
    }
}

/// A message that is dropped leaves the consumer receiving, with an error
/// that is not fatal; the consumer stops exactly when it closes; and once
/// closed it stays closed.
pub proof fn law_loop_goes_on_until_closed(
    table: Map<Field, VitalRange>,
    patient_id: Seq<char>,
    state: AgentStateView,
    event: AgentEventView,
)
    ensures
        ({
            let (next, action) = step_spec(table, patient_id, state, event);
            &&& action matches AgentActionView::Discard(error) ==> next
                == AgentStateView::Receiving && !error.is_fatal()
            &&& action is Stop <==> next == AgentStateView::Closed
            &&& action matches AgentActionView::Stop(Err(error)) ==> error.is_fatal()
            &&& state == AgentStateView::Closed ==> next == AgentStateView::Closed
        }),
{
}

/// The numeral of a natural number is made of digits and writes that
/// number.
pub proof fn law_digits_write_their_number(n: nat)
    ensures
        is_numeral(digits(n)),
        numeral_value(digits(n)) == n,
    decreases n,
{
    let d = (n % 10) as int;
    assert(is_digit(digit_char(d)) && digit_value(digit_char(d)) == d);
    if n < 10 {
        assert(digits(n).drop_last() =~= Seq::<char>::empty());
        assert(numeral_value(digits(n).drop_last()) == 0);
    } else {
        law_digits_write_their_number(n / 10);
        assert(digits(n).drop_last() =~= digits(n / 10));
        assert(digits(n).last() == digit_char(d));
    }
}

/// Reading the decimal numeral of a 32-bit integer gives the integer back.
pub proof fn law_decimal_round_trip(n: i32)
    ensures
        parse_i32_spec(decimal(n as int)) == Some(n),
{
    let text = decimal(n as int);
    if n < 0 {
        let m = (-(n as int)) as nat;
        law_digits_write_their_number(m);
        assert(text[0] == '-');
        assert(text.drop_first() =~= digits(m));
    } else {
        law_digits_write_their_number(n as nat);
        assert(is_digit(text[0]));
    }
}

/// A decimal numeral holds digits and, at most, a minus sign: no comma, no
/// slash and no blank.
pub proof fn law_decimal_characters(n: int, i: int)
    requires
        0 <= i < decimal(n).len(),
    ensures
        is_digit(decimal(n)[i]) || decimal(n)[i] == '-',
        is_digit(decimal(n).last()),
        decimal(n).len() > 0,
{
    let m = if n < 0 {
        (-n) as nat
    } else {
        n as nat
    };
    law_digits_write_their_number(m);
    if n < 0 {
        if i > 0 {
            assert(decimal(n)[i] == digits(m)[i - 1]);
        }
        assert(decimal(n).last() == digits(m).last());
    }
}

/// A text whose first and last characters are not blanks is its own trim.
proof fn trim_of_tight(s: Seq<char>)
    requires
        s.len() > 0,
        !is_space(s[0]),
        !is_space(s.last()),
    ensures
        trim(s) == s,
{
}

/// The three segments of a message are what stands between its two commas.
pub proof fn law_segments_between_commas(a: Seq<char>, b: Seq<char>, c: Seq<char>)
    requires
        !a.contains(','),
        !b.contains(','),
        !c.contains(','),
    ensures
        three_segments(a + seq![','] + b + seq![','] + c) == Some((a, b, c)),
{
    let text = a + seq![','] + b + seq![','] + c;
    let first = a.len() as int;
    assert forall|j: int| 0 <= j < first implies text[j] != ',' by {
        assert(text[j] == a[j]);
        assert(a.contains(a[j]));
    }
    assert(text[first] == ',');
    lemma_find(text, ',', first);
    let rest = text.skip(first + 1);
    assert(rest =~= b + seq![','] + c);
    let second = b.len() as int;
    assert forall|j: int| 0 <= j < second implies rest[j] != ',' by {
        assert(rest[j] == b[j]);
        assert(b.contains(b[j]));
    }
    assert(rest[second] == ',');
    lemma_find(rest, ',', second);
    let last = rest.skip(second + 1);
    assert(last =~= c);
    assert forall|j: int| 0 <= j < c.len() implies c[j] != ',' by {
        assert(c.contains(c[j]));
    }
    lemma_find(c, ',', c.len() as int);
    assert(text.take(first) =~= a);
    assert(rest.take(second) =~= b);
}

/// A label followed by a decimal numeral, as a segment: it holds no comma,
/// it is its own trim, and the numeral is what follows the label.
proof fn labelled_numeral(label: Seq<char>, n: int)
    requires
        label.len() > 0,
        !label.contains(','),
        !is_space(label[0]),
    ensures
        !(label + decimal(n)).contains(','),
        trim(label + decimal(n)) == label + decimal(n),
        after_label(label + decimal(n), label) == Some(decimal(n)),
{
    let s = label + decimal(n);
    law_decimal_characters(n, 0);
    assert forall|j: int| 0 <= j < s.len() implies s[j] != ',' by {
        if j < label.len() {
            assert(s[j] == label[j]);
            assert(label.contains(label[j]));
        } else {
            assert(s[j] == decimal(n)[j - label.len()]);
            law_decimal_characters(n, j - label.len());
        }
    }
    assert(s.last() == decimal(n).last());
    assert(s[0] == label[0]);
    trim_of_tight(s);
    assert(s.subrange(0, label.len() as int) =~= label);
    assert(s.skip(label.len() as int) =~= decimal(n));
}

/// The pressure segment of a compact message: it holds no comma, it is its
/// own trim, the two numerals joined by a slash follow its label, and the
/// slash that parts them is the first one.
proof fn pressure_segment(systolic: int, diastolic: int)
    ensures
        ({
            let pressure = decimal(systolic) + seq!['/'] + decimal(diastolic);
            let segment = "BP:"@ + pressure;
            &&& !segment.contains(',')
            &&& trim(segment) == segment
            &&& after_label(segment, "BP:"@) == Some(pressure)
            &&& find(pressure, '/') == decimal(systolic).len()
            &&& pressure.take(decimal(systolic).len() as int) == decimal(systolic)
            &&& pressure.skip(decimal(systolic).len() as int + 1) == decimal(diastolic)
        }),
{
    reveal_strlit("BP:");
    let high = decimal(systolic);
    let low = decimal(diastolic);
    let pressure = high + seq!['/'] + low;
    let segment = "BP:"@ + pressure;
    law_decimal_characters(systolic, 0);
    law_decimal_characters(diastolic, 0);
    assert forall|j: int| 0 <= j < high.len() implies pressure[j] != '/' && pressure[j]
        != ',' by {
        assert(pressure[j] == high[j]);
        law_decimal_characters(systolic, j);
    }
    assert forall|j: int| high.len() < j < pressure.len() implies pressure[j] != ',' by {
        assert(pressure[j] == low[j - high.len() - 1]);
        law_decimal_characters(diastolic, j - high.len() - 1);
    }
    assert(pressure[high.len() as int] == '/');
    assert forall|j: int| 0 <= j < segment.len() implies segment[j] != ',' by {
        if j >= 3 {
            assert(segment[j] == pressure[j - 3]);
        }
    }
    assert(segment.last() == low.last());
    trim_of_tight(segment);
    assert(segment.subrange(0, 3) =~= "BP:"@);
    assert(segment.skip(3) =~= pressure);
    lemma_find(pressure, '/', high.len() as int);
    assert(pressure.take(high.len() as int) =~= high);
    assert(pressure.skip(high.len() as int + 1) =~= low);
}

/// The compact message of four numbers, segment by segment.
proof fn compact_text_in_segments(c: Compact)
    ensures
        compact_text(c) == ("BP:"@ + (decimal(c.systolic as int) + seq!['/'] + decimal(
            c.diastolic as int,
        ))) + seq![','] + ("HR:"@ + decimal(c.heart_rate as int)) + seq![','] + ("SpO2:"@
            + decimal(c.oxygen_saturation as int)),
{
    reveal_strlit("HR:");
    reveal_strlit("SpO2:");
    reveal_strlit("/");
    reveal_strlit(",HR:");
    reveal_strlit(",SpO2:");
    assert("/"@ =~= seq!['/']);
    assert(",HR:"@ =~= seq![','] + "HR:"@);
    assert(",SpO2:"@ =~= seq![','] + "SpO2:"@);
    assert(compact_text(c) =~= ("BP:"@ + (decimal(c.systolic as int) + seq!['/'] + decimal(
        c.diastolic as int,
    ))) + seq![','] + ("HR:"@ + decimal(c.heart_rate as int)) + seq![','] + ("SpO2:"@ + decimal(
        c.oxygen_saturation as int,
    )));
}

/// The heart-rate segment of a compact message: it holds no comma, it is
/// its own trim, and the numeral follows its label.
proof fn rate_segment(n: int)
    ensures
        !("HR:"@ + decimal(n)).contains(','),
        trim("HR:"@ + decimal(n)) == "HR:"@ + decimal(n),
        after_label("HR:"@ + decimal(n), "HR:"@) == Some(decimal(n)),
{
    reveal_strlit("HR:");
    assert(!"HR:"@.contains(','));
    labelled_numeral("HR:"@, n);
}

/// The saturation segment of a compact message: it holds no comma, it is
/// its own trim, and the numeral follows its label.
proof fn saturation_segment(n: int)
    ensures
        !("SpO2:"@ + decimal(n)).contains(','),
        trim("SpO2:"@ + decimal(n)) == "SpO2:"@ + decimal(n),
        after_label("SpO2:"@ + decimal(n), "SpO2:"@) == Some(decimal(n)),
{
    reveal_strlit("SpO2:");
    assert(!"SpO2:"@.contains(','));
    labelled_numeral("SpO2:"@, n);
}

/// Reading the three bodies of the compact message of four numbers gives
/// the four numbers back.
proof fn bodies_round_trip(c: Compact)
    ensures
        parse_bodies(
            decimal(c.systolic as int) + seq!['/'] + decimal(c.diastolic as int),
            decimal(c.heart_rate as int),
            decimal(c.oxygen_saturation as int),
        ) == Ok::<Compact, ParseError>(c),
{
    pressure_segment(c.systolic as int, c.diastolic as int);
    law_decimal_round_trip(c.systolic);
    law_decimal_round_trip(c.diastolic);
    law_decimal_round_trip(c.heart_rate);
    law_decimal_round_trip(c.oxygen_saturation);
}

/// Reading the compact message of four numbers gives the four numbers back.
pub proof fn law_compact_round_trip(c: Compact)
    ensures
        parse_compact_spec(compact_text(c)) == Ok::<Compact, ParseError>(c),
{
    let pressure = decimal(c.systolic as int) + seq!['/'] + decimal(c.diastolic as int);
    let rate = decimal(c.heart_rate as int);
    let saturation = decimal(c.oxygen_saturation as int);
    compact_text_in_segments(c);
    pressure_segment(c.systolic as int, c.diastolic as int);
    rate_segment(c.heart_rate as int);
    saturation_segment(c.oxygen_saturation as int);
    law_segments_between_commas("BP:"@ + pressure, "HR:"@ + rate, "SpO2:"@ + saturation);
    bodies_round_trip(c);
}

/// The first mark of a text whose trim is not empty is the first character
/// of the trim.
proof fn first_mark_of_trim(s: Seq<char>)
    requires
        trim(s).len() > 0,
    ensures
        first_mark(s) == Some(trim(s)[0]),
    decreases s.len(),
{
    if s.len() > 0 && is_space(s[0]) {
        first_mark_of_trim(s.drop_first());
    } else if s.len() > 0 && is_space(s.last()) {
        let rest = s.drop_last();
        first_mark_of_trim(rest);
        assert(rest.len() > 0);
        assert(rest[0] == s[0]);
    }
}

/// What follows a text that has a mark does not change its first mark.
proof fn first_mark_of_beginning(beginning: Seq<char>, rest: Seq<char>)
    requires
        first_mark(beginning) is Some,
    ensures
        first_mark(beginning + rest) == first_mark(beginning),
    decreases beginning.len(),
{
    let whole = beginning + rest;
    assert(whole[0] == beginning[0]);
    if is_space(beginning[0]) {
        assert(whole.drop_first() =~= beginning.drop_first() + rest);
        first_mark_of_beginning(beginning.drop_first(), rest);
    }
}

/// A compact message opens with the label of its first segment, after
/// blanks or none. So no message that opens like a structured one is a
/// compact message, and to refuse such a message as undecodable turns no
/// reading away.
pub proof fn law_compact_messages_do_not_look_structured(text: Seq<char>, patient_id: Seq<char>)
    ensures
        parse_compact_spec(text) is Ok ==> first_mark(text) == Some('B'),
        looks_structured(text) ==> parse_compact_spec(text) is Err,
        looks_structured(text) ==> compact_message_spec(text, patient_id) is Err,
{
    if parse_compact_spec(text) is Ok {
        let first = find(text, ',');
        let segment = text.take(first);
        lemma_find_bounds(text, ',');
        assert(three_segments(text) matches Some(segments) && segments.0 == segment);
        assert(after_label(trim(segment), "BP:"@) is Some);
        reveal_strlit("BP:");
        assert("BP:"@.is_prefix_of(trim(segment)));
        assert(trim(segment)[0] == "BP:"@[0]);
        first_mark_of_trim(segment);
        first_mark_of_beginning(segment, text.skip(first));
        assert(text =~= segment + text.skip(first));
    }
}

/// Blanks before a text do not change its trim.
proof fn trim_ignores_blanks_before(blanks: Seq<char>, s: Seq<char>)
    requires
        forall|j: int| 0 <= j < blanks.len() ==> is_space(blanks[j]),
    ensures
        trim(blanks + s) == trim(s),
    decreases blanks.len(),
{
    if blanks.len() == 0 {
        assert(blanks + s =~= s);
    } else {
        assert((blanks + s)[0] == blanks[0]);
        assert((blanks + s).drop_first() =~= blanks.drop_first() + s);
        trim_ignores_blanks_before(blanks.drop_first(), s);
    }
}

/// Blanks after a text do not change its trim.
proof fn trim_ignores_blanks_after(s: Seq<char>, blanks: Seq<char>)
    requires
        forall|j: int| 0 <= j < blanks.len() ==> is_space(blanks[j]),
    ensures
        trim(s + blanks) == trim(s),
    decreases s.len() + blanks.len(),
{
    let whole = s + blanks;
    if blanks.len() == 0 {
        assert(whole =~= s);
    } else if s.len() == 0 {
        assert(whole =~= blanks + s);
        trim_ignores_blanks_before(blanks, s);
    } else if is_space(s[0]) {
        assert(whole[0] == s[0]);
        assert(whole.drop_first() =~= s.drop_first() + blanks);
        trim_ignores_blanks_after(s.drop_first(), blanks);
    } else {
        assert(whole[0] == s[0]);
        assert(whole.last() == blanks.last());
        assert(whole.drop_last() =~= s + blanks.drop_last());
        trim_ignores_blanks_after(s, blanks.drop_last());
    }
}

/// Blanks around the segments of a compact message do not change what the
/// message says.
pub proof fn law_blanks_around_segments_are_ignored(
    segments: (Seq<char>, Seq<char>, Seq<char>),
    before: (Seq<char>, Seq<char>, Seq<char>),
    after: (Seq<char>, Seq<char>, Seq<char>),
)
    requires
        !segments.0.contains(',') && !segments.1.contains(',') && !segments.2.contains(','),
        forall|j: int| 0 <= j < before.0.len() ==> is_space(before.0[j]),
        forall|j: int| 0 <= j < before.1.len() ==> is_space(before.1[j]),
        forall|j: int| 0 <= j < before.2.len() ==> is_space(before.2[j]),
        forall|j: int| 0 <= j < after.0.len() ==> is_space(after.0[j]),
        forall|j: int| 0 <= j < after.1.len() ==> is_space(after.1[j]),
        forall|j: int| 0 <= j < after.2.len() ==> is_space(after.2[j]),
    ensures
        parse_compact_spec(
            (before.0 + segments.0 + after.0) + seq![','] + (before.1 + segments.1 + after.1)
                + seq![','] + (before.2 + segments.2 + after.2),
        ) == parse_compact_spec(segments.0 + seq![','] + segments.1 + seq![','] + segments.2),
{
    let first = before.0 + segments.0 + after.0;
    let second = before.1 + segments.1 + after.1;
    let third = before.2 + segments.2 + after.2;
    padded_has_no_comma(before.0, segments.0, after.0);
    padded_has_no_comma(before.1, segments.1, after.1);
    padded_has_no_comma(before.2, segments.2, after.2);
    law_segments_between_commas(first, second, third);
    law_segments_between_commas(segments.0, segments.1, segments.2);
    trim_ignores_blanks_after(before.0 + segments.0, after.0);
    trim_ignores_blanks_before(before.0, segments.0);
    trim_ignores_blanks_after(before.1 + segments.1, after.1);
    trim_ignores_blanks_before(before.1, segments.1);
    trim_ignores_blanks_after(before.2 + segments.2, after.2);
    trim_ignores_blanks_before(before.2, segments.2);
}

/// A segment between blanks holds no comma if the segment holds none.
proof fn padded_has_no_comma(before: Seq<char>, segment: Seq<char>, after: Seq<char>)
    requires
        !segment.contains(','),
        forall|j: int| 0 <= j < before.len() ==> is_space(before[j]),
        forall|j: int| 0 <= j < after.len() ==> is_space(after[j]),
    ensures
        !(before + segment + after).contains(','),
{
    let s = before + segment + after;
    assert forall|j: int| 0 <= j < s.len() implies s[j] != ',' by {
        if j < before.len() {
            assert(s[j] == before[j]);
        } else if j < before.len() + segment.len() {
            assert(s[j] == segment[j - before.len()]);
            assert(segment.contains(segment[j - before.len()]));
        } else {
            assert(s[j] == after[j - before.len() - segment.len()]);
        }
    }
}

} // verus!
