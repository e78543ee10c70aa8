use vstd::prelude::*;
use vstd::string::*;
use vstd::utf8::encode_utf8;
use crate::severity::Severity;

verus! {

/// A calendar timestamp in UTC, held as plain broken-down fields.
///
/// The pipeline never reads a clock itself; whoever emits a record hands
/// the current UTC time over in this form.
pub struct UtcTimestamp {
    pub year: u16,
    pub month: u8,
    pub day: u8,
    pub hour: u8,
    pub minute: u8,
    pub second: u8,
}

pub open spec fn leap_year(y: int) -> bool {
    y % 4 == 0 && (y % 100 != 0 || y % 400 == 0)
}

pub open spec fn days_in_month(y: int, m: int) -> int {
    if m == 2 {
        if leap_year(y) {
            29
        } else {
            28
        }
    } else if m == 4 || m == 6 || m == 9 || m == 11 {
        30
    } else {
        31
    }
}

impl UtcTimestamp {
    /// A well-formed calendar date and time of day, within the four-digit
    /// years RFC 3339 can carry.
    pub open spec fn wf(self) -> bool {
        &&& 1 <= self.year <= 9999
        &&& 1 <= self.month <= 12
        &&& 1 <= self.day <= days_in_month(self.year as int, self.month as int)
        &&& self.hour < 24
        &&& self.minute < 60
        &&& self.second < 60
    }

    /// Validate broken-down fields into a timestamp; `None` exactly when
    /// they name no real UTC calendar time.
    pub fn new(year: u16, month: u8, day: u8, hour: u8, minute: u8, second: u8) -> (r: Option<
        UtcTimestamp,
    >)
        ensures
            ({
                let t = UtcTimestamp { year, month, day, hour, minute, second };
                match r {
                    Some(t2) => t2 == t && t.wf(),
                    None => !t.wf(),
                }
            }),
    {
        let t = UtcTimestamp { year, month, day, hour, minute, second };
        if year < 1 || year > 9999 || month < 1 || month > 12 || hour >= 24 || minute >= 60
            || second >= 60 {
            return None;
        }
        let max_day: u8 = if month == 2 {
            let leap = year % 4 == 0 && (year % 100 != 0 || year % 400 == 0);
            if leap {
                29
            } else {
                28
            }
        } else if month == 4 || month == 6 || month == 9 || month == 11 {
            30
        } else {
            31
        };
        if day < 1 || day > max_day {
            return None;
        }
        Some(t)
    }
}

/// The ASCII digit for `0 <= n <= 9`.
pub open spec fn digit(n: int) -> u8 {
    (48 + n) as u8
}

/// `n` rendered as exactly two decimal digits.
pub open spec fn two_digits(n: int) -> Seq<u8> {
    seq![digit(n / 10), digit(n % 10)]
}

/// `n` rendered as exactly four decimal digits.
pub open spec fn four_digits(n: int) -> Seq<u8> {
    seq![digit(n / 1000), digit((n / 100) % 10), digit((n / 10) % 10), digit(n % 10)]
}

/// `n` rendered in decimal with no leading zero.
pub open spec fn spec_decimal(n: nat) -> Seq<u8>
    decreases n,
{
    if n < 10 {
        seq![digit(n as int)]
    } else {
        spec_decimal(n / 10).push(digit((n % 10) as int))
    }
}

/// The RFC 3339 UTC rendering `YYYY-MM-DDThh:mm:ssZ` of a timestamp.
pub open spec fn spec_rfc3339(t: UtcTimestamp) -> Seq<u8> {
    four_digits(t.year as int) + seq![45u8]  // -
     + two_digits(t.month as int) + seq![45u8]  // -
     + two_digits(t.day as int) + seq![84u8]  // T
     + two_digits(t.hour as int) + seq![58u8]  // :
     + two_digits(t.minute as int) + seq![58u8]  // :
     + two_digits(t.second as int) + seq![90u8]  // Z

}

fn push_two_digits(out: &mut Vec<u8>, n: u8)
    requires
        n < 100,
    ensures
        final(out)@ == old(out)@ + two_digits(n as int),
{
    out.push(48 + n / 10);
    out.push(48 + n % 10);
    assert(final(out)@ =~= old(out)@ + two_digits(n as int));
}

fn push_four_digits(out: &mut Vec<u8>, n: u16)
    requires
        n < 10000,
    ensures
        final(out)@ == old(out)@ + four_digits(n as int),
{
    out.push((48 + n / 1000) as u8);
    out.push((48 + (n / 100) % 10) as u8);
    out.push((48 + (n / 10) % 10) as u8);
    out.push((48 + n % 10) as u8);
    assert(final(out)@ =~= old(out)@ + four_digits(n as int));
}

/// Append `n` in decimal.
pub fn push_decimal(out: &mut Vec<u8>, n: u64)
    ensures
        final(out)@ == old(out)@ + spec_decimal(n as nat),
    decreases n,
{
    if n >= 10 {
        push_decimal(out, n / 10);
    }
    out.push(48 + (n % 10) as u8);
    assert(final(out)@ =~= old(out)@ + spec_decimal(n as nat));
}

/// Append the RFC 3339 rendering of `t`.
pub fn push_rfc3339(out: &mut Vec<u8>, t: &UtcTimestamp)
    requires
        t.wf(),
    ensures
        final(out)@ == old(out)@ + spec_rfc3339(*t),
{
    push_four_digits(out, t.year);
    out.push(45);
    push_two_digits(out, t.month);
    out.push(45);
    push_two_digits(out, t.day);
    out.push(84);
    push_two_digits(out, t.hour);
    out.push(58);
    push_two_digits(out, t.minute);
    out.push(58);
    push_two_digits(out, t.second);
    out.push(90);
    assert(final(out)@ =~= old(out)@ + spec_rfc3339(*t));
}

/// The hexadecimal digit for `0 <= n <= 15`, lower case.
pub open spec fn hex_digit(n: int) -> u8 {
    if n < 10 {
        (48 + n) as u8
    } else {
        (87 + n) as u8
    }
}

/// The JSON string escaping of one byte of UTF-8 text.  Quote and backslash
/// are escaped, the common control characters get their short escapes, the
/// remaining control bytes become `\u00XX`, and every other byte — ASCII or
/// part of a multi-byte UTF-8 sequence — passes through unchanged.
pub open spec fn esc_byte(b: u8) -> Seq<u8> {
    if b == 34 {
        seq![92u8, 34u8]  // \"
    } else if b == 92 {
        seq![92u8, 92u8]  // \\
    } else if b == 10 {
        seq![92u8, 110u8]  // \n
    } else if b == 13 {
        seq![92u8, 114u8]  // \r
    } else if b == 9 {
        seq![92u8, 116u8]  // \t
    } else if b < 32 {
        seq![92u8, 117u8, 48u8, 48u8, hex_digit(b as int / 16), hex_digit(b as int % 16)]
    } else {
        seq![b]
    }
}

/// The JSON string escaping of a byte sequence.
pub open spec fn json_escape(bs: Seq<u8>) -> Seq<u8>
    decreases bs.len(),
{
    if bs.len() == 0 {
        Seq::empty()
    } else {
        esc_byte(bs[0]) + json_escape(bs.drop_first())
    }
}

/// Escaping distributes over appending one byte at the end.
pub proof fn lemma_json_escape_push(bs: Seq<u8>, b: u8)
    ensures
        json_escape(bs.push(b)) == json_escape(bs) + esc_byte(b),
    decreases bs.len(),
{
    if bs.len() == 0 {
        assert(bs.push(b)[0] == b);
        assert(bs.push(b).drop_first() =~= Seq::<u8>::empty());
        assert(json_escape(bs.push(b)) == esc_byte(b) + json_escape(Seq::<u8>::empty()));
        assert(json_escape(Seq::<u8>::empty()) == Seq::<u8>::empty());
        assert(json_escape(bs) == Seq::<u8>::empty());
        assert(json_escape(bs.push(b)) =~= json_escape(bs) + esc_byte(b));
    } else {
        let t = bs.drop_first();
        assert(bs.push(b)[0] == bs[0]);
        assert(bs.push(b).drop_first() =~= t.push(b));
        lemma_json_escape_push(t, b);
        assert(json_escape(bs.push(b)) == esc_byte(bs[0]) + json_escape(t.push(b)));
        assert(json_escape(bs) == esc_byte(bs[0]) + json_escape(t));
        assert(esc_byte(bs[0]) + (json_escape(t) + esc_byte(b)) =~= (esc_byte(bs[0]) + json_escape(
            t,
        )) + esc_byte(b));
        assert(json_escape(bs.push(b)) =~= json_escape(bs) + esc_byte(b));
    }
}

fn hex_exec(n: u8) -> (r: u8)
    requires
        n < 16,
    ensures
        r == hex_digit(n as int),
{
    if n < 10 {
        48 + n
    } else {
        87 + n
    }
}

/// Append the JSON string escaping of `s`.
pub fn push_escaped(out: &mut Vec<u8>, s: &[u8])
    ensures
        final(out)@ == old(out)@ + json_escape(s@),
{
    let mut i: usize = 0;
    while i < s.len()
        invariant
            0 <= i <= s@.len(),
            out@ == old(out)@ + json_escape(s@.take(i as int)),
        decreases s@.len() - i,
    {
        let b = s[i];
        if b == 34 || b == 92 {
            out.push(92);
            out.push(b);
        } else if b == 10 {
            out.push(92);
            out.push(110);
        } else if b == 13 {
            out.push(92);
            out.push(114);
        } else if b == 9 {
            out.push(92);
            out.push(116);
        } else if b < 32 {
            out.push(92);
            out.push(117);
            out.push(48);
            out.push(48);
            out.push(hex_exec(b / 16));
            out.push(hex_exec(b % 16));
        } else {
            out.push(b);
        }
        proof {
            lemma_json_escape_push(s@.take(i as int), s@[i as int]);
            assert(s@.take(i as int + 1) =~= s@.take(i as int).push(s@[i as int]));
            assert(out@ =~= old(out)@ + json_escape(s@.take(i as int + 1)));
        }
        i += 1;
    }
    assert(s@.take(s@.len() as int) =~= s@);
}

/// The value of one structured field: text, or an unsigned integer.
pub enum FieldValue {
    Text(String),
    Integer(u64),
}

/// One structured field, flattened at the top level of the record object.
pub struct LogField {
    pub key: String,
    pub value: FieldValue,
}

/// The JSON rendering of one field value: a quoted escaped string, or a
/// bare decimal number.
pub open spec fn spec_render_value(v: FieldValue) -> Seq<u8> {
    match v {
        FieldValue::Text(s) => seq![34u8] + json_escape(encode_utf8(s@)) + seq![34u8],
        FieldValue::Integer(n) => spec_decimal(n as nat),
    }
}

/// The JSON rendering of one field: `,"key":value`.
pub open spec fn spec_render_field(f: LogField) -> Seq<u8> {
    seq![44u8, 34u8] + json_escape(encode_utf8(f.key@)) + seq![34u8, 58u8] + spec_render_value(
        f.value,
    )
}

/// The JSON rendering of a field list.
pub open spec fn spec_render_fields(fs: Seq<LogField>) -> Seq<u8>
    decreases fs.len(),
{
    if fs.len() == 0 {
        Seq::empty()
    } else {
        spec_render_field(fs[0]) + spec_render_fields(fs.drop_first())
    }
}

/// Field rendering distributes over appending one field at the end.
pub proof fn lemma_render_fields_push(fs: Seq<LogField>, f: LogField)
    ensures
        spec_render_fields(fs.push(f)) == spec_render_fields(fs) + spec_render_field(f),
    decreases fs.len(),
{
    if fs.len() == 0 {
        assert(fs.push(f)[0] == f);
        assert(fs.push(f).drop_first() =~= Seq::<LogField>::empty());
        assert(spec_render_fields(fs.push(f)) == spec_render_field(f) + spec_render_fields(
            Seq::<LogField>::empty(),
        ));
        assert(spec_render_fields(Seq::<LogField>::empty()) == Seq::<u8>::empty());
        assert(spec_render_fields(fs) == Seq::<u8>::empty());
        assert(spec_render_fields(fs.push(f)) =~= spec_render_fields(fs) + spec_render_field(f));
    } else {
        let t = fs.drop_first();
        assert(fs.push(f)[0] == fs[0]);
        assert(fs.push(f).drop_first() =~= t.push(f));
        lemma_render_fields_push(t, f);
        assert(spec_render_fields(fs.push(f)) == spec_render_field(fs[0]) + spec_render_fields(
            t.push(f),
        ));
        assert(spec_render_fields(fs) == spec_render_field(fs[0]) + spec_render_fields(t));
        assert(spec_render_field(fs[0]) + (spec_render_fields(t) + spec_render_field(f)) =~= (
        spec_render_field(fs[0]) + spec_render_fields(t)) + spec_render_field(f));
        assert(spec_render_fields(fs.push(f)) =~= spec_render_fields(fs) + spec_render_field(f));
    }
}

/// One structured log record, as the log layer serializes it.
pub struct LogRecord {
    pub timestamp: UtcTimestamp,
    pub severity: Severity,
    pub target: String,
    pub message: String,
    pub fields: Vec<LogField>,
}

/// `{"timestamp":"` — the opening of the record object.
pub open spec fn frag_open() -> Seq<u8> {
    seq![123u8, 34u8, 116u8, 105u8, 109u8, 101u8, 115u8, 116u8, 97u8, 109u8, 112u8, 34u8, 58u8,
        34u8]
}

/// `","level":"`
pub open spec fn frag_level() -> Seq<u8> {
    seq![34u8, 44u8, 34u8, 108u8, 101u8, 118u8, 101u8, 108u8, 34u8, 58u8, 34u8]
}

/// `","target":"`
pub open spec fn frag_target() -> Seq<u8> {
    seq![34u8, 44u8, 34u8, 116u8, 97u8, 114u8, 103u8, 101u8, 116u8, 34u8, 58u8, 34u8]
}

/// `","message":"`
pub open spec fn frag_message() -> Seq<u8> {
    seq![34u8, 44u8, 34u8, 109u8, 101u8, 115u8, 115u8, 97u8, 103u8, 101u8, 34u8, 58u8, 34u8]
}

/// The fixed JSON wire schema of one record, one object per record: an
/// RFC 3339 UTC timestamp, the severity label, the target, the message, and
/// the structured fields flattened at the top level.  Deliberately absent:
/// any span list or current-span field.
pub open spec fn spec_render(rec: LogRecord) -> Seq<u8> {
    frag_open() + spec_rfc3339(rec.timestamp) + frag_level() + rec.severity.spec_label()
        + frag_target() + json_escape(encode_utf8(rec.target@)) + frag_message() + json_escape(
        encode_utf8(rec.message@),
    ) + seq![34u8] + spec_render_fields(rec.fields@) + seq![125u8]
}

impl LogRecord {
    /// Serialize this record to its JSON wire form.
    pub fn render_json(&self) -> (r: Vec<u8>)
        requires
            self.timestamp.wf(),
        ensures
            r@ == spec_render(*self),
    {
        let mut out: Vec<u8> = Vec::new();
        let mut f: Vec<u8> = vec![123u8, 34u8, 116u8, 105u8, 109u8, 101u8, 115u8, 116u8, 97u8,
            109u8, 112u8, 34u8, 58u8, 34u8];
        assert(f@ =~= frag_open());
        out.append(&mut f);
        push_rfc3339(&mut out, &self.timestamp);
        let mut f2: Vec<u8> = vec![34u8, 44u8, 34u8, 108u8, 101u8, 118u8, 101u8, 108u8, 34u8, 58u8,
            34u8];
        assert(f2@ =~= frag_level());
        out.append(&mut f2);
        let mut lab = self.severity.label_bytes();
        out.append(&mut lab);
        let mut f3: Vec<u8> = vec![34u8, 44u8, 34u8, 116u8, 97u8, 114u8, 103u8, 101u8, 116u8, 34u8,
            58u8, 34u8];
        assert(f3@ =~= frag_target());
        out.append(&mut f3);
        push_escaped(&mut out, self.target.as_str().as_bytes());
        let mut f4: Vec<u8> = vec![34u8, 44u8, 34u8, 109u8, 101u8, 115u8, 115u8, 97u8, 103u8,
            101u8, 34u8, 58u8, 34u8];
        assert(f4@ =~= frag_message());
        out.append(&mut f4);
        push_escaped(&mut out, self.message.as_str().as_bytes());
        out.push(34);
        let ghost prefix = out@;
        let mut i: usize = 0;
        while i < self.fields.len()
            invariant
                0 <= i <= self.fields@.len(),
                out@ == prefix + spec_render_fields(self.fields@.take(i as int)),
            decreases self.fields@.len() - i,
        {
            let fld = &self.fields[i];
            let mut fs: Vec<u8> = vec![44u8, 34u8];
            out.append(&mut fs);
            push_escaped(&mut out, fld.key.as_str().as_bytes());
            let mut fm: Vec<u8> = vec![34u8, 58u8];
            out.append(&mut fm);
            match &fld.value {
                FieldValue::Text(s) => {
                    out.push(34);
                    push_escaped(&mut out, s.as_str().as_bytes());
                    out.push(34);
                },
                FieldValue::Integer(n) => {
                    push_decimal(&mut out, *n);
                },
            }
            proof {
                lemma_render_fields_push(self.fields@.take(i as int), self.fields@[i as int]);
                assert(self.fields@.take(i as int + 1) =~= self.fields@.take(i as int).push(
                    self.fields@[i as int],
                ));
                assert(out@ =~= prefix + spec_render_fields(self.fields@.take(i as int + 1)));
            }
            i += 1;
        }
        assert(self.fields@.take(self.fields@.len() as int) =~= self.fields@);
        out.push(125);
        assert(out@ =~= spec_render(*self));
        out
    }
}

} // verus!
