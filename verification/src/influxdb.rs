//! Line-protocol points.
//!
//! The telemetry sink consumes measurement points in the time-series line
//! protocol: a measurement name, optional comma-separated `key=value` tags,
//! space, comma-separated `key=value` fields, and an optional timestamp
//! scaled to a chosen precision. A [`Point`] keeps tags and fields as
//! ordered association lists with unique keys — adding an existing key
//! replaces its value in place — and [`Point::to_line`] renders exactly the
//! line that the spec functions below describe. Decoded sensor values enter
//! a point as [`Value`]s; fixed-point readings (millivolts, hundredths of a
//! degree) are rendered with their decimal point in place, never as floats.

use vstd::prelude::*;
use vstd::pervasive::VecAdditionalExecFns;

use crate::text;
use crate::text::{dec_str, int_dec_str, scaled_str};

verus! {

/// A field value: a signed integer (rendered with the line protocol's `i`
/// suffix), a boolean, quoted text, or a fixed-point reading `Scaled(v, w)`
/// standing for `v / 10^w`, rendered with exactly `w` fractional digits.
#[derive(Debug)]
pub enum Value {
    Integer(i64),
    Boolean(bool),
    Text(String),
    Scaled(i64, u32),
}

impl Value {
    /// The characters this value is rendered as.
    pub open spec fn rendered(&self) -> Seq<char> {
        match *self {
            Value::Integer(n) => int_dec_str(n as int) + seq!['i'],
            Value::Boolean(b) => if b {
                "true"@
            } else {
                "false"@
            },
            Value::Text(s) => seq!['"'] + s@ + seq!['"'],
            Value::Scaled(n, w) => scaled_str(n as int, w as nat),
        }
    }

    /// Renders this value for a line-protocol field.
    pub fn render(&self) -> (r: String)
        ensures
            r@ == self.rendered(),
    {
        let mut out = String::new();
        match self {
            Value::Integer(n) => {
                text::push_signed_decimal(&mut out, *n);
                text::push_char(&mut out, 'i');
                proof {
                    assert(out@ =~= self.rendered());
                }
            },
            Value::Boolean(b) => {
                if *b {
                    text::push_str(&mut out, "true");
                } else {
                    text::push_str(&mut out, "false");
                }
            },
            Value::Text(s) => {
                text::push_char(&mut out, '"');
                text::push_str(&mut out, s.as_str());
                text::push_char(&mut out, '"');
                proof {
                    assert(out@ =~= self.rendered());
                }
            },
            Value::Scaled(n, w) => {
                text::push_scaled_decimal(&mut out, *n, *w);
            },
        }
        out
    }
}

/// The precision a timestamp is truncated to, and its query-string suffix.
#[derive(Clone, Copy, Debug, PartialEq, Eq, Structural)]
pub enum TimestampPrecision {
    NanoSecond,
    MicroSecond,
    MilliSecond,
    Second,
    Minute,
    Hour,
}

impl TimestampPrecision {
    /// How many nanoseconds one unit of this precision holds.
    pub open spec fn spec_divisor(&self) -> nat {
        match *self {
            TimestampPrecision::NanoSecond => 1,
            TimestampPrecision::MicroSecond => 1_000,
            TimestampPrecision::MilliSecond => 1_000_000,
            TimestampPrecision::Second => 1_000_000_000,
            TimestampPrecision::Minute => 60_000_000_000,
            TimestampPrecision::Hour => 3_600_000_000_000,
        }
    }

    /// How many nanoseconds one unit of this precision holds.
    pub fn divisor(&self) -> (r: u64)
        ensures
            r == self.spec_divisor(),
            r >= 1,
    {
        match self {
            TimestampPrecision::NanoSecond => 1,
            TimestampPrecision::MicroSecond => 1_000,
            TimestampPrecision::MilliSecond => 1_000_000,
            TimestampPrecision::Second => 1_000_000_000,
            TimestampPrecision::Minute => 60_000_000_000,
            TimestampPrecision::Hour => 3_600_000_000_000,
        }
    }

    /// The suffix naming this precision in a write query.
    pub open spec fn spec_suffix(&self) -> Seq<char> {
        match *self {
            TimestampPrecision::NanoSecond => "ns"@,
            TimestampPrecision::MicroSecond => "u"@,
            TimestampPrecision::MilliSecond => "ms"@,
            TimestampPrecision::Second => "s"@,
            TimestampPrecision::Minute => "m"@,
            TimestampPrecision::Hour => "h"@,
        }
    }

    /// The suffix naming this precision in a write query.
    pub fn suffix(&self) -> (r: &'static str)
        ensures
            r@ == self.spec_suffix(),
    {
        match self {
            TimestampPrecision::NanoSecond => "ns",
            TimestampPrecision::MicroSecond => "u",
            TimestampPrecision::MilliSecond => "ms",
            TimestampPrecision::Second => "s",
            TimestampPrecision::Minute => "m",
            TimestampPrecision::Hour => "h",
        }
    }
}

/// A capture instant: nanoseconds since the epoch, rendered truncated to
/// the chosen precision.
#[derive(Clone, Copy, Debug)]
pub struct Timestamp {
    pub timestamp: u64,
    pub precision: TimestampPrecision,
}

impl Timestamp {
    /// The timestamp's value in whole units of its precision.
    pub open spec fn spec_scaled(&self) -> nat {
        self.timestamp as nat / self.precision.spec_divisor()
    }

    /// Wraps a capture instant, given in nanoseconds since the epoch.
    pub fn new(timestamp: u64, precision: TimestampPrecision) -> (t: Self)
        ensures
            t.timestamp == timestamp,
            t.precision == precision,
    {
        Self { timestamp, precision }
    }

    /// The timestamp's value in whole units of its precision.
    pub fn scaled(&self) -> (r: u64)
        ensures
            r == self.spec_scaled(),
    {
        self.timestamp / self.precision.divisor()
    }
}

/// Whether no two entries of an association list share a key.
pub open spec fn distinct_keys(s: Seq<(Seq<char>, Seq<char>)>) -> bool {
    forall|i: int, j: int| 0 <= i < j < s.len() ==> s[i].0 != s[j].0
}

/// Replaces the value under `k` in place, or appends the pair when `k` is
/// absent: the map-like update of an ordered association list.
pub open spec fn assoc_update(
    s: Seq<(Seq<char>, Seq<char>)>,
    k: Seq<char>,
    v: Seq<char>,
) -> Seq<(Seq<char>, Seq<char>)>
    decreases s.len(),
{
    if s.len() == 0 {
        seq![(k, v)]
    } else if s[0].0 == k {
        seq![(k, v)] + s.drop_first()
    } else {
        seq![s[0]] + assoc_update(s.drop_first(), k, v)
    }
}

/// Where the key is present (first at `i`), the update replaces in place.
pub proof fn lemma_assoc_update_at(
    s: Seq<(Seq<char>, Seq<char>)>,
    k: Seq<char>,
    v: Seq<char>,
    i: int,
)
    requires
        0 <= i < s.len(),
        s[i].0 == k,
        forall|j: int| 0 <= j < i ==> s[j].0 != k,
    ensures
        assoc_update(s, k, v) == s.update(i, (k, v)),
    decreases i,
{
    if i == 0 {
        assert(seq![(k, v)] + s.drop_first() =~= s.update(0, (k, v)));
    } else {
        assert(forall|j: int| 0 <= j < i - 1 ==> s.drop_first()[j].0 != k);
        lemma_assoc_update_at(s.drop_first(), k, v, i - 1);
        assert(seq![s[0]] + s.drop_first().update(i - 1, (k, v)) =~= s.update(i, (k, v)));
    }
}

/// Where the key is absent, the update appends the pair.
pub proof fn lemma_assoc_update_absent(s: Seq<(Seq<char>, Seq<char>)>, k: Seq<char>, v: Seq<char>)
    requires
        forall|j: int| 0 <= j < s.len() ==> s[j].0 != k,
    ensures
        assoc_update(s, k, v) == s.push((k, v)),
    decreases s.len(),
{
    if s.len() == 0 {
        assert(seq![(k, v)] =~= s.push((k, v)));
    } else {
        lemma_assoc_update_absent(s.drop_first(), k, v);
        assert(seq![s[0]] + s.drop_first().push((k, v)) =~= s.push((k, v)));
    }
}

/// The comma-joined `key=value` rendering of an association list.
pub open spec fn pairs_str(s: Seq<(Seq<char>, Seq<char>)>) -> Seq<char>
    decreases s.len(),
{
    if s.len() == 0 {
        Seq::empty()
    } else if s.len() == 1 {
        s[0].0 + seq!['='] + s[0].1
    } else {
        s[0].0 + seq!['='] + s[0].1 + seq![','] + pairs_str(s.drop_first())
    }
}

proof fn lemma_pairs_str_snoc(s: Seq<(Seq<char>, Seq<char>)>, p: (Seq<char>, Seq<char>))
    ensures
        s.len() == 0 ==> pairs_str(s.push(p)) == p.0 + seq!['='] + p.1,
        s.len() > 0 ==> pairs_str(s.push(p)) == pairs_str(s) + seq![','] + p.0 + seq!['='] + p.1,
    decreases s.len(),
{
    if s.len() == 0 {
        assert(s.push(p)[0] == p);
        assert(pairs_str(s.push(p)) =~= p.0 + seq!['='] + p.1);
    } else {
        lemma_pairs_str_snoc(s.drop_first(), p);
        assert(s.push(p).drop_first() =~= s.drop_first().push(p));
        if s.len() == 1 {
            assert(pairs_str(s.push(p)) =~= pairs_str(s) + seq![','] + p.0 + seq!['='] + p.1);
        } else {
            assert(pairs_str(s.push(p)) =~= pairs_str(s) + seq![','] + p.0 + seq!['='] + p.1);
        }
    }
}

/// One measurement: a name, tag and field association lists with unique
/// keys, and an optional capture timestamp. Built incrementally as each
/// field read succeeds; owned by the caller, not by the session.
pub struct Point {
    measurement: String,
    tags: Vec<(String, String)>,
    fields: Vec<(String, String)>,
    timestamp: Option<Timestamp>,
}

/// The pair-of-views form of one association-list entry.
pub open spec fn entry_view(p: (String, String)) -> (Seq<char>, Seq<char>) {
    (p.0@, p.1@)
}

/// Locates the first entry whose key reads `key`, if any.
fn find_key(list: &Vec<(String, String)>, key: &String) -> (r: Option<usize>)
    ensures
        match r {
            Some(i) => 0 <= i < list@.len() && list@[i as int].0@ == key@ && (forall|j: int|
                0 <= j < i ==> list@[j].0@ != key@),
            None => forall|j: int| 0 <= j < list@.len() ==> list@[j].0@ != key@,
        },
{
    let mut i: usize = 0;
    while i < list.len()
        invariant
            i <= list@.len(),
            forall|j: int| 0 <= j < i ==> list@[j].0@ != key@,
        decreases list@.len() - i,
    {
        if list[i].0 == *key {
            return Some(i);
        }
        i = i + 1;
    }
    None
}

impl Point {
    /// The measurement name.
    pub closed spec fn measurement(&self) -> Seq<char> {
        self.measurement@
    }

    /// The tags, in insertion order.
    pub closed spec fn tags(&self) -> Seq<(Seq<char>, Seq<char>)> {
        self.tags@.map_values(|p: (String, String)| entry_view(p))
    }

    /// The fields, in insertion order, values already rendered.
    pub closed spec fn fields(&self) -> Seq<(Seq<char>, Seq<char>)> {
        self.fields@.map_values(|p: (String, String)| entry_view(p))
    }

    /// The capture timestamp, if one was set.
    pub closed spec fn timestamp(&self) -> Option<Timestamp> {
        self.timestamp
    }

    /// Tag keys and field keys are each unique.
    pub open spec fn wf(&self) -> bool {
        distinct_keys(self.tags()) && distinct_keys(self.fields())
    }

    /// A point with no tags, no fields and no timestamp yet.
    pub fn new(measurement: String) -> (p: Point)
        ensures
            p.wf(),
            p.measurement() == measurement@,
            p.tags() =~= Seq::<(Seq<char>, Seq<char>)>::empty(),
            p.fields() =~= Seq::<(Seq<char>, Seq<char>)>::empty(),
            p.timestamp() is None,
    {
        Point { measurement, tags: Vec::new(), fields: Vec::new(), timestamp: None }
    }

    /// Adds a tag, replacing the value in place if the key is present.
    pub fn add_tag(&mut self, key: String, value: String)
        requires
            old(self).wf(),
        ensures
            final(self).wf(),
            final(self).tags() == assoc_update(old(self).tags(), key@, value@),
            final(self).measurement() == old(self).measurement(),
            final(self).fields() == old(self).fields(),
            final(self).timestamp() == old(self).timestamp(),
    {
        let ghost orig = self.tags();
        match find_key(&self.tags, &key) {
            Some(i) => {
                proof {
                    lemma_assoc_update_at(orig, key@, value@, i as int);
                }
                self.tags.set(i, (key, value));
                proof {
                    assert(self.tags() =~= orig.update(i as int, (key@, value@)));
                }
            },
            None => {
                proof {
                    lemma_assoc_update_absent(orig, key@, value@);
                }
                self.tags.push((key, value));
                proof {
                    assert(self.tags() =~= orig.push((key@, value@)));
                }
            },
        }
    }

    /// Adds a field from a decoded value, replacing the rendered value in
    /// place if the key is present. A failed field read simply never calls
    /// this, omitting the field from the outgoing point.
    pub fn add_field(&mut self, key: String, value: Value)
        requires
            old(self).wf(),
        ensures
            final(self).wf(),
            final(self).fields() == assoc_update(old(self).fields(), key@, value.rendered()),
            final(self).measurement() == old(self).measurement(),
            final(self).tags() == old(self).tags(),
            final(self).timestamp() == old(self).timestamp(),
    {
        let ghost orig = self.fields();
        let rendered = value.render();
        match find_key(&self.fields, &key) {
            Some(i) => {
                proof {
                    lemma_assoc_update_at(orig, key@, value.rendered(), i as int);
                }
                self.fields.set(i, (key, rendered));
                proof {
                    assert(self.fields() =~= orig.update(i as int, (key@, value.rendered())));
                }
            },
            None => {
                proof {
                    lemma_assoc_update_absent(orig, key@, value.rendered());
                }
                self.fields.push((key, rendered));
                proof {
                    assert(self.fields() =~= orig.push((key@, value.rendered())));
                }
            },
        }
    }

    /// Sets the capture timestamp.
    pub fn set_timestamp(&mut self, timestamp: Timestamp)
        requires
            old(self).wf(),
        ensures
            final(self).wf(),
            final(self).timestamp() == Some(timestamp),
            final(self).measurement() == old(self).measurement(),
            final(self).tags() == old(self).tags(),
            final(self).fields() == old(self).fields(),
    {
        self.timestamp = Some(timestamp);
    }

    /// The capture timestamp, if one was set; the write query needs its
    /// precision.
    pub fn timestamp_value(&self) -> (t: Option<Timestamp>)
        ensures
            t == self.timestamp(),
    {
        self.timestamp
    }

    /// The full line this point renders as.
    pub open spec fn line(&self) -> Seq<char> {
        self.measurement() + (if self.tags().len() > 0 {
            seq![','] + pairs_str(self.tags())
        } else {
            Seq::empty()
        }) + (if self.fields().len() > 0 {
            seq![' '] + pairs_str(self.fields())
        } else {
            Seq::empty()
        }) + (match self.timestamp() {
            Some(t) => seq![' '] + dec_str(t.spec_scaled()),
            None => Seq::empty(),
        })
    }

    /// Renders the point in the line protocol.
    pub fn to_line(&self) -> (r: String)
        ensures
            r@ == self.line(),
    {
        let mut out = String::new();
        text::push_str(&mut out, self.measurement.as_str());
        if self.tags.len() > 0 {
            text::push_char(&mut out, ',');
            push_pairs(&mut out, &self.tags);
        }
        if self.fields.len() > 0 {
            text::push_char(&mut out, ' ');
            push_pairs(&mut out, &self.fields);
        }
        match &self.timestamp {
            Some(ts) => {
                text::push_char(&mut out, ' ');
                let scaled = ts.scaled();
                text::push_decimal(&mut out, scaled);
            },
            None => {},
        }
        proof {
            assert(out@ =~= self.line());
        }
        out
    }
}

/// Appends the comma-joined `key=value` rendering of a non-empty list.
fn push_pairs(out: &mut String, list: &Vec<(String, String)>)
    requires
        list@.len() > 0,
    ensures
        final(out)@ == old(out)@ + pairs_str(
            list@.map_values(|p: (String, String)| entry_view(p)),
        ),
{
    let ghost pairs = list@.map_values(|p: (String, String)| entry_view(p));
    let ghost base = out@;
    let mut i: usize = 0;
    while i < list.len()
        invariant
            0 < list@.len(),
            i <= list@.len(),
            pairs == list@.map_values(|p: (String, String)| entry_view(p)),
            i == 0 ==> out@ == base,
            i > 0 ==> out@ == base + pairs_str(pairs.take(i as int)),
        decreases list@.len() - i,
    {
        let ghost before = out@;
        if i > 0 {
            text::push_char(out, ',');
        }
        text::push_str(out, list[i].0.as_str());
        text::push_char(out, '=');
        text::push_str(out, list[i].1.as_str());
        proof {
            assert(pairs[i as int] == entry_view(list@[i as int]));
            if i == 0 {
                assert(pairs.take(1) =~= seq![pairs[0]]);
                assert(out@ =~= base + pairs_str(pairs.take(1)));
            } else {
                lemma_pairs_str_snoc(pairs.take(i as int), pairs[i as int]);
                assert(pairs.take(i as int).push(pairs[i as int]) =~= pairs.take(i as int + 1));
                assert(out@ =~= base + pairs_str(pairs.take(i as int + 1)));
            }
        }
        i = i + 1;
    }
    proof {
        assert(pairs.take(pairs.len() as int) =~= pairs);
    }
}

/// Builds the query string of a write request: the database name, and the
/// precision of the point's timestamp when it carries one.
pub fn write_query(database: &str, precision: Option<&TimestampPrecision>) -> (r: String)
    ensures
        r@ == "db="@ + database@ + (match precision {
            Some(p) => "&precision="@ + p.spec_suffix(),
            None => Seq::<char>::empty(),
        }),
{
    let mut out = String::new();
    text::push_str(&mut out, "db=");
    text::push_str(&mut out, database);
    match precision {
        Some(p) => {
            text::push_str(&mut out, "&precision=");
            let suffix = p.suffix();
            text::push_str(&mut out, suffix);
            proof {
                assert(out@ =~= "db="@ + database@ + ("&precision="@ + p.spec_suffix()));
            }
        },
        None => {
            proof {
                assert(out@ =~= "db="@ + database@ + Seq::<char>::empty());
            }
        },
    }
    out
}

} // verus!
