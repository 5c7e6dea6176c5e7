//! The serialization contract: every record serializes to a JSON object
//! with lower-camel-case field names, built byte by byte.
//!
//! The emitted text is pinned down exactly: string content is escaped as
//! JSON demands (quote, backslash, control bytes), numbers print in
//! decimal, and a unit record flattens its optional service record's
//! fields into the same object instead of nesting them.
use vstd::prelude::*;
use vstd::string::StrSliceExecFns;
use vstd::string::StringSliceAdditionalSpecFns;
use vstd::utf8::encode_utf8;

verus! {

/// The lower-case hex digit of one nibble.
pub open spec fn hex_nibble(n: u8) -> u8 {
    if n < 10 {
        (48 + n) as u8
    } else {
        (87 + n) as u8
    }
}

/// What one byte of string content contributes to its JSON form: a quote
/// or backslash gets a backslash escape, a control byte becomes a
/// six-byte `\u00XX` escape, and every other byte stands for itself.
pub open spec fn json_escape_byte(b: u8) -> Seq<u8> {
    if b == 34 {
        seq![92u8, 34u8]
    } else if b == 92 {
        seq![92u8, 92u8]
    } else if b < 32 {
        seq![92u8, 117u8, 48u8, 48u8, hex_nibble(b / 16), hex_nibble(b % 16)]
    } else {
        seq![b]
    }
}

/// The JSON escape of a whole byte sequence, byte for byte in order.
pub open spec fn json_escape(s: Seq<u8>) -> Seq<u8>
    decreases s.len(),
{
    if s.len() == 0 {
        Seq::empty()
    } else {
        json_escape_byte(s[0]) + json_escape(s.drop_first())
    }
}

proof fn lemma_json_escape_snoc(s: Seq<u8>, i: int)
    requires
        0 <= i < s.len(),
    ensures
        json_escape(s.take(i + 1)) == json_escape(s.take(i)) + json_escape_byte(s[i]),
    decreases i,
{
    if i == 0 {
        assert(s.take(1) =~= seq![s[0]]);
        assert(s.take(1).drop_first() =~= Seq::<u8>::empty());
        assert(s.take(0) =~= Seq::<u8>::empty());
        assert(json_escape(s.take(1)) == json_escape_byte(s.take(1)[0]) + json_escape(
            s.take(1).drop_first(),
        ));
        assert(json_escape(Seq::<u8>::empty()) =~= Seq::<u8>::empty());
        assert(json_escape_byte(s[0]) + Seq::<u8>::empty() =~= json_escape_byte(s[0]));
        assert(json_escape(s.take(1)) =~= json_escape_byte(s[0]));
    } else {
        let t = s.drop_first();
        lemma_json_escape_snoc(t, i - 1);
        assert(s.take(i + 1).drop_first() =~= t.take(i));
        assert(s.take(i).drop_first() =~= t.take(i - 1));
        assert(s.take(i + 1)[0] == s[0]);
        assert(s.take(i)[0] == s[0]);
        assert(t[i - 1] == s[i]);
        assert(json_escape(s.take(i + 1)) == json_escape_byte(s[0]) + json_escape(t.take(i)));
        assert(json_escape(s.take(i)) == json_escape_byte(s[0]) + json_escape(t.take(i - 1)));
        assert(json_escape_byte(s[0]) + (json_escape(t.take(i - 1)) + json_escape_byte(t[i - 1]))
            =~= (json_escape_byte(s[0]) + json_escape(t.take(i - 1))) + json_escape_byte(t[i - 1]));
    }
}

/// The quoted JSON form of a character sequence: its UTF-8 bytes escaped,
/// between double quotes.
pub open spec fn json_quoted(s: Seq<char>) -> Seq<u8> {
    seq![34u8] + json_escape(encode_utf8(s)) + seq![34u8]
}

/// Appends the bytes of a literal piece of JSON syntax.
fn append_lit(out: &mut Vec<u8>, s: &str)
    ensures
        final(out)@ == old(out)@ + s.spec_bytes(),
{
    let bytes = s.as_bytes_vec();
    let ghost start: Seq<u8> = out@;
    proof {
        assert(start + bytes@.take(0) =~= start);
    }
    let n: usize = bytes.len();
    let mut i: usize = 0;
    while i < n
        invariant
            n == bytes@.len(),
            0 <= i <= n,
            out@ == start + bytes@.take(i as int),
        decreases n - i,
    {
        let b = bytes[i];
        proof {
            assert(bytes@.take(i + 1) =~= bytes@.take(i as int) + seq![bytes@[i as int]]);
            assert((start + bytes@.take(i as int)) + seq![bytes@[i as int]] =~= start + bytes@.take(
                i + 1,
            ));
        }
        out.push(b);
        i = i + 1;
    }
    proof {
        assert(bytes@.take(n as int) =~= bytes@);
    }
}

/// Appends the escaped bytes of string content.
fn append_json_escaped(out: &mut Vec<u8>, s: &str)
    ensures
        final(out)@ == old(out)@ + json_escape(s.spec_bytes()),
{
    let bytes = s.as_bytes_vec();
    let ghost start: Seq<u8> = out@;
    proof {
        assert(bytes@.take(0) =~= Seq::<u8>::empty());
        assert(start + json_escape(bytes@.take(0)) =~= start);
    }
    let n: usize = bytes.len();
    let mut i: usize = 0;
    while i < n
        invariant
            n == bytes@.len(),
            0 <= i <= n,
            out@ == start + json_escape(bytes@.take(i as int)),
        decreases n - i,
    {
        let b = bytes[i];
        proof {
            lemma_json_escape_snoc(bytes@, i as int);
        }
        if b == 34 {
            out.push(92);
            out.push(34);
        } else if b == 92 {
            out.push(92);
            out.push(92);
        } else if b < 32 {
            out.push(92);
            out.push(117);
            out.push(48);
            out.push(48);
            let hi: u8 = b / 16;
            let lo: u8 = b % 16;
            out.push(if hi < 10 { 48 + hi } else { 87 + hi });
            out.push(if lo < 10 { 48 + lo } else { 87 + lo });
        } else {
            out.push(b);
        }
        proof {
            assert(out@ =~= start + (json_escape(bytes@.take(i as int)) + json_escape_byte(
                bytes@[i as int],
            )));
        }
        i = i + 1;
    }
    proof {
        assert(bytes@.take(n as int) =~= bytes@);
    }
}

/// Appends the quoted JSON form of a string.
fn append_json_quoted(out: &mut Vec<u8>, s: &str)
    ensures
        final(out)@ == old(out)@ + json_quoted(s@),
{
    let ghost start: Seq<u8> = out@;
    out.push(34);
    append_json_escaped(out, s);
    out.push(34);
    proof {
        assert(out@ =~= start + json_quoted(s@));
    }
}

/// The decimal digits of a natural number, most significant first.
pub open spec fn dec_rep(n: nat) -> Seq<u8>
    decreases n,
{
    if n < 10 {
        seq![(48 + n) as u8]
    } else {
        dec_rep(n / 10) + seq![(48 + n % 10) as u8]
    }
}

/// The JSON form of a signed number: the decimal digits of its magnitude,
/// after a minus sign when it is negative.
pub open spec fn json_int(v: int) -> Seq<u8> {
    if v < 0 {
        seq![45u8] + dec_rep((-v) as nat)
    } else {
        dec_rep(v as nat)
    }
}

/// Appends the decimal digits of an unsigned number.
fn append_u64(out: &mut Vec<u8>, v: u64)
    ensures
        final(out)@ == old(out)@ + dec_rep(v as nat),
{
    let mut digits: Vec<u8> = Vec::new();
    let mut n: u64 = v;
    proof {
        assert(digits@.reverse() =~= Seq::<u8>::empty());
        assert(dec_rep(v as nat) + digits@.reverse() =~= dec_rep(v as nat));
    }
    while n >= 10
        invariant
            dec_rep(v as nat) == dec_rep(n as nat) + digits@.reverse(),
        decreases n,
    {
        let d: u8 = (n % 10) as u8 + 48;
        digits.push(d);
        proof {
            assert(digits@.reverse() =~= seq![d] + digits@.drop_last().reverse());
            assert(dec_rep((n / 10) as nat) + (seq![d] + digits@.drop_last().reverse()) =~= (
            dec_rep((n / 10) as nat) + seq![d]) + digits@.drop_last().reverse());
        }
        n = n / 10;
    }
    let d: u8 = n as u8 + 48;
    digits.push(d);
    proof {
        assert(digits@.reverse() =~= seq![d] + digits@.drop_last().reverse());
        assert(dec_rep(v as nat) =~= digits@.reverse());
    }
    let ghost start: Seq<u8> = out@;
    proof {
        assert(start + digits@.reverse().take(0) =~= start);
    }
    let len: usize = digits.len();
    let mut j: usize = len;
    while j > 0
        invariant
            len == digits@.len(),
            0 <= j <= len,
            dec_rep(v as nat) == digits@.reverse(),
            out@ == start + digits@.reverse().take(len - j),
        decreases j,
    {
        j = j - 1;
        let b = digits[j];
        proof {
            assert(digits@.reverse()[len - j - 1] == digits@[j as int]);
            assert(digits@.reverse().take(len - j) =~= digits@.reverse().take((len - j - 1) as int)
                + seq![digits@.reverse()[len - j - 1]]);
            assert((start + digits@.reverse().take((len - j - 1) as int)) + seq![digits@[j as int]]
                =~= start + digits@.reverse().take(len - j));
        }
        out.push(b);
    }
    proof {
        assert(digits@.reverse().take(len as int) =~= digits@.reverse());
    }
}

/// Appends the JSON form of a signed 32-bit number.
fn append_i32(out: &mut Vec<u8>, v: i32)
    ensures
        final(out)@ == old(out)@ + json_int(v as int),
{
    let ghost start: Seq<u8> = out@;
    if v >= 0 {
        append_u64(out, v as u64);
    } else {
        out.push(45);
        let m: i64 = -(v as i64);
        append_u64(out, m as u64);
        proof {
            assert(out@ =~= start + (seq![45u8] + dec_rep((-(v as int)) as nat)));
        }
    }
}

/// The JSON form of a boolean.
pub open spec fn json_bool(b: bool) -> Seq<u8> {
    if b {
        "true".spec_bytes()
    } else {
        "false".spec_bytes()
    }
}

/// Appends the JSON form of a boolean.
fn append_bool(out: &mut Vec<u8>, b: bool)
    ensures
        final(out)@ == old(out)@ + json_bool(b),
{
    if b {
        append_lit(out, "true");
    } else {
        append_lit(out, "false");
    }
}

/// The comma-joined quoted forms of a sequence of strings.
pub open spec fn json_string_items(v: Seq<String>) -> Seq<u8>
    decreases v.len(),
{
    if v.len() == 0 {
        Seq::empty()
    } else if v.len() == 1 {
        json_quoted(v[0]@)
    } else {
        json_quoted(v[0]@) + seq![44u8] + json_string_items(v.drop_first())
    }
}

/// The JSON array of a sequence of strings.
pub open spec fn json_string_array(v: Seq<String>) -> Seq<u8> {
    seq![91u8] + json_string_items(v) + seq![93u8]
}

proof fn lemma_json_string_items_snoc(v: Seq<String>, i: int)
    requires
        0 <= i < v.len(),
    ensures
        json_string_items(v.take(i + 1)) == if i == 0 {
            json_quoted(v[0]@)
        } else {
            json_string_items(v.take(i)) + seq![44u8] + json_quoted(v[i]@)
        },
    decreases i,
{
    if i == 0 {
        assert(v.take(1) =~= seq![v[0]]);
        assert(json_string_items(v.take(1)) == json_quoted(v.take(1)[0]@));
    } else {
        let t = v.drop_first();
        lemma_json_string_items_snoc(t, i - 1);
        assert(v.take(i + 1).drop_first() =~= t.take(i));
        assert(v.take(i).drop_first() =~= t.take(i - 1));
        assert(v.take(i + 1)[0] == v[0]);
        assert(v.take(i)[0] == v[0]);
        assert(t[i - 1] == v[i]);
        if i == 1 {
            assert(v.take(2).len() == 2);
            assert(json_string_items(v.take(2)) == json_quoted(v[0]@) + seq![44u8]
                + json_string_items(t.take(1)));
            assert(t.take(1) =~= seq![t[0]]);
            assert(json_string_items(t.take(1)) == json_quoted(t[0]@));
            assert(v.take(1) =~= seq![v[0]]);
            assert(json_string_items(v.take(1)) == json_quoted(v[0]@));
        } else {
            assert(json_string_items(v.take(i + 1)) == json_quoted(v[0]@) + seq![44u8]
                + json_string_items(t.take(i)));
            assert(json_string_items(t.take(i)) == json_string_items(t.take(i - 1)) + seq![44u8]
                + json_quoted(t[i - 1]@));
            assert(json_string_items(v.take(i)) == json_quoted(v[0]@) + seq![44u8]
                + json_string_items(t.take(i - 1)));
            assert(json_quoted(v[0]@) + seq![44u8] + (json_string_items(t.take(i - 1)) + seq![44u8]
                + json_quoted(v[i]@)) =~= (json_quoted(v[0]@) + seq![44u8] + json_string_items(
                t.take(i - 1),
            )) + seq![44u8] + json_quoted(v[i]@));
        }
    }
}

/// Appends the JSON array of a vector of strings.
fn append_string_array(out: &mut Vec<u8>, v: &Vec<String>)
    ensures
        final(out)@ == old(out)@ + json_string_array(v@),
{
    let ghost start: Seq<u8> = out@;
    out.push(91);
    proof {
        assert(v@.take(0) =~= Seq::<String>::empty());
        assert(out@ =~= start + seq![91u8] + json_string_items(v@.take(0)));
    }
    let n: usize = v.len();
    let mut i: usize = 0;
    while i < n
        invariant
            n == v@.len(),
            0 <= i <= n,
            out@ == start + seq![91u8] + json_string_items(v@.take(i as int)),
        decreases n - i,
    {
        proof {
            lemma_json_string_items_snoc(v@, i as int);
        }
        if i > 0 {
            out.push(44);
        }
        append_json_quoted(out, v[i].as_str());
        proof {
            if i == 0 {
                assert(out@ =~= start + seq![91u8] + json_string_items(v@.take(i + 1)));
            } else {
                assert(out@ =~= start + seq![91u8] + (json_string_items(v@.take(i as int))
                    + seq![44u8] + json_quoted(v@[i as int]@)));
            }
        }
        i = i + 1;
    }
    out.push(93);
    proof {
        assert(v@.take(n as int) =~= v@);
        assert(out@ =~= start + json_string_array(v@));
    }
}

/// The JSON object of one exec record, fields in declaration order.
#[verifier::opaque]
pub open spec fn json_of_exec(e: crate::dto::ExecData) -> Seq<u8> {
    "{\"pathToBinary\":".spec_bytes() + json_quoted(e.path_to_binary@) + ",\"args\":".spec_bytes()
        + json_string_array(e.args@) + ",\"shouldUncleanExitMeanFailure\":".spec_bytes()
        + json_bool(e.should_unclean_exit_mean_failure) + ",\"clockRealtimeStart\":".spec_bytes()
        + dec_rep(e.clock_realtime_start as nat) + ",\"clockMonotonicStart\":".spec_bytes()
        + dec_rep(e.clock_monotonic_start as nat) + ",\"clockRealtimeFinish\":".spec_bytes()
        + dec_rep(e.clock_realtime_finish as nat) + ",\"clockMonotonicFinish\":".spec_bytes()
        + dec_rep(e.clock_monotonic_finish as nat) + ",\"pid\":".spec_bytes() + dec_rep(
        e.pid as nat,
    ) + ",\"lastExitCode\":".spec_bytes() + json_int(e.last_exit_code as int)
        + ",\"lastStatus\":".spec_bytes() + json_int(e.last_status as int) + "}".spec_bytes()
}

/// Appends the JSON object of one exec record.
#[verifier::rlimit(100)]
#[verifier::spinoff_prover]
fn append_exec(out: &mut Vec<u8>, e: &crate::dto::ExecData)
    ensures
        final(out)@ == old(out)@ + json_of_exec(*e),
{
    let ghost start: Seq<u8> = out@;
    append_lit(out, "{\"pathToBinary\":");
    let ghost acc0: Seq<u8> = "{\"pathToBinary\":".spec_bytes();
    proof {
        assert(out@ =~= start + acc0);
    }
    append_json_quoted(out, e.path_to_binary.as_str());
    let ghost acc1: Seq<u8> = acc0 + json_quoted(e.path_to_binary@);
    proof {
        assert(out@ =~= start + acc1);
    }
    append_lit(out, ",\"args\":");
    let ghost acc2: Seq<u8> = acc1 + ",\"args\":".spec_bytes();
    proof {
        assert(out@ =~= start + acc2);
    }
    append_string_array(out, &e.args);
    let ghost acc3: Seq<u8> = acc2 + json_string_array(e.args@);
    proof {
        assert(out@ =~= start + acc3);
    }
    append_lit(out, ",\"shouldUncleanExitMeanFailure\":");
    let ghost acc4: Seq<u8> = acc3 + ",\"shouldUncleanExitMeanFailure\":".spec_bytes();
    proof {
        assert(out@ =~= start + acc4);
    }
    append_bool(out, e.should_unclean_exit_mean_failure);
    let ghost acc5: Seq<u8> = acc4 + json_bool(e.should_unclean_exit_mean_failure);
    proof {
        assert(out@ =~= start + acc5);
    }
    append_lit(out, ",\"clockRealtimeStart\":");
    let ghost acc6: Seq<u8> = acc5 + ",\"clockRealtimeStart\":".spec_bytes();
    proof {
        assert(out@ =~= start + acc6);
    }
    append_u64(out, e.clock_realtime_start);
    let ghost acc7: Seq<u8> = acc6 + dec_rep(e.clock_realtime_start as nat);
    proof {
        assert(out@ =~= start + acc7);
    }
    append_lit(out, ",\"clockMonotonicStart\":");
    let ghost acc8: Seq<u8> = acc7 + ",\"clockMonotonicStart\":".spec_bytes();
    proof {
        assert(out@ =~= start + acc8);
    }
    append_u64(out, e.clock_monotonic_start);
    let ghost acc9: Seq<u8> = acc8 + dec_rep(e.clock_monotonic_start as nat);
    proof {
        assert(out@ =~= start + acc9);
    }
    append_lit(out, ",\"clockRealtimeFinish\":");
    let ghost acc10: Seq<u8> = acc9 + ",\"clockRealtimeFinish\":".spec_bytes();
    proof {
        assert(out@ =~= start + acc10);
    }
    append_u64(out, e.clock_realtime_finish);
    let ghost acc11: Seq<u8> = acc10 + dec_rep(e.clock_realtime_finish as nat);
    proof {
        assert(out@ =~= start + acc11);
    }
    append_lit(out, ",\"clockMonotonicFinish\":");
    let ghost acc12: Seq<u8> = acc11 + ",\"clockMonotonicFinish\":".spec_bytes();
    proof {
        assert(out@ =~= start + acc12);
    }
    append_u64(out, e.clock_monotonic_finish);
    let ghost acc13: Seq<u8> = acc12 + dec_rep(e.clock_monotonic_finish as nat);
    proof {
        assert(out@ =~= start + acc13);
    }
    append_lit(out, ",\"pid\":");
    let ghost acc14: Seq<u8> = acc13 + ",\"pid\":".spec_bytes();
    proof {
        assert(out@ =~= start + acc14);
    }
    append_u64(out, e.pid as u64);
    let ghost acc15: Seq<u8> = acc14 + dec_rep(e.pid as nat);
    proof {
        assert(out@ =~= start + acc15);
    }
    append_lit(out, ",\"lastExitCode\":");
    let ghost acc16: Seq<u8> = acc15 + ",\"lastExitCode\":".spec_bytes();
    proof {
        assert(out@ =~= start + acc16);
    }
    append_i32(out, e.last_exit_code);
    let ghost acc17: Seq<u8> = acc16 + json_int(e.last_exit_code as int);
    proof {
        assert(out@ =~= start + acc17);
    }
    append_lit(out, ",\"lastStatus\":");
    let ghost acc18: Seq<u8> = acc17 + ",\"lastStatus\":".spec_bytes();
    proof {
        assert(out@ =~= start + acc18);
    }
    append_i32(out, e.last_status);
    let ghost acc19: Seq<u8> = acc18 + json_int(e.last_status as int);
    proof {
        assert(out@ =~= start + acc19);
    }
    append_lit(out, "}");
    let ghost acc20: Seq<u8> = acc19 + "}".spec_bytes();
    proof {
        assert(out@ =~= start + acc20);
    }
    proof {
        reveal(json_of_exec);
        assert(acc20 == json_of_exec(*e));
    }
}

/// The comma-joined object forms of a sequence of exec records.
pub open spec fn json_exec_items(v: Seq<crate::dto::ExecData>) -> Seq<u8>
    decreases v.len(),
{
    if v.len() == 0 {
        Seq::empty()
    } else if v.len() == 1 {
        json_of_exec(v[0])
    } else {
        json_of_exec(v[0]) + seq![44u8] + json_exec_items(v.drop_first())
    }
}

/// The JSON array of a sequence of exec records.
pub open spec fn json_exec_array(v: Seq<crate::dto::ExecData>) -> Seq<u8> {
    seq![91u8] + json_exec_items(v) + seq![93u8]
}

proof fn lemma_json_exec_items_snoc(v: Seq<crate::dto::ExecData>, i: int)
    requires
        0 <= i < v.len(),
    ensures
        json_exec_items(v.take(i + 1)) == if i == 0 {
            json_of_exec(v[0])
        } else {
            json_exec_items(v.take(i)) + seq![44u8] + json_of_exec(v[i])
        },
    decreases i,
{
    if i == 0 {
        assert(v.take(1) =~= seq![v[0]]);
        assert(json_exec_items(v.take(1)) == json_of_exec(v.take(1)[0]));
    } else {
        let t = v.drop_first();
        lemma_json_exec_items_snoc(t, i - 1);
        assert(v.take(i + 1).drop_first() =~= t.take(i));
        assert(v.take(i).drop_first() =~= t.take(i - 1));
        assert(v.take(i + 1)[0] == v[0]);
        assert(v.take(i)[0] == v[0]);
        assert(t[i - 1] == v[i]);
        if i == 1 {
            assert(v.take(2).len() == 2);
            assert(json_exec_items(v.take(2)) == json_of_exec(v[0]) + seq![44u8] + json_exec_items(
                t.take(1),
            ));
            assert(t.take(1) =~= seq![t[0]]);
            assert(json_exec_items(t.take(1)) == json_of_exec(t[0]));
            assert(v.take(1) =~= seq![v[0]]);
            assert(json_exec_items(v.take(1)) == json_of_exec(v[0]));
        } else {
            assert(json_exec_items(v.take(i + 1)) == json_of_exec(v[0]) + seq![44u8]
                + json_exec_items(t.take(i)));
            assert(json_exec_items(t.take(i)) == json_exec_items(t.take(i - 1)) + seq![44u8]
                + json_of_exec(t[i - 1]));
            assert(json_exec_items(v.take(i)) == json_of_exec(v[0]) + seq![44u8] + json_exec_items(
                t.take(i - 1),
            ));
            assert(json_of_exec(v[0]) + seq![44u8] + (json_exec_items(t.take(i - 1)) + seq![44u8]
                + json_of_exec(v[i])) =~= (json_of_exec(v[0]) + seq![44u8] + json_exec_items(
                t.take(i - 1),
            )) + seq![44u8] + json_of_exec(v[i]));
        }
    }
}

/// Appends the JSON array of a vector of exec records.
fn append_exec_array(out: &mut Vec<u8>, v: &Vec<crate::dto::ExecData>)
    ensures
        final(out)@ == old(out)@ + json_exec_array(v@),
{
    let ghost start: Seq<u8> = out@;
    out.push(91);
    proof {
        assert(v@.take(0) =~= Seq::<crate::dto::ExecData>::empty());
        assert(out@ =~= start + seq![91u8] + json_exec_items(v@.take(0)));
    }
    let n: usize = v.len();
    let mut i: usize = 0;
    while i < n
        invariant
            n == v@.len(),
            0 <= i <= n,
            out@ == start + seq![91u8] + json_exec_items(v@.take(i as int)),
        decreases n - i,
    {
        proof {
            lemma_json_exec_items_snoc(v@, i as int);
        }
        if i > 0 {
            out.push(44);
        }
        append_exec(out, &v[i]);
        proof {
            if i == 0 {
                assert(out@ =~= start + seq![91u8] + json_exec_items(v@.take(i + 1)));
            } else {
                assert(out@ =~= start + seq![91u8] + (json_exec_items(v@.take(i as int))
                    + seq![44u8] + json_of_exec(v@[i as int])));
            }
        }
        i = i + 1;
    }
    out.push(93);
    proof {
        assert(v@.take(n as int) =~= v@);
        assert(out@ =~= start + json_exec_array(v@));
    }
}


/// The JSON form of an optional string: its quoted form, or `null`.
pub open spec fn json_opt_string(v: Option<String>) -> Seq<u8> {
    match v {
        Some(s) => json_quoted(s@),
        None => "null".spec_bytes(),
    }
}

/// Appends the JSON form of an optional string.
fn append_opt_string(out: &mut Vec<u8>, v: &Option<String>)
    ensures
        final(out)@ == old(out)@ + json_opt_string(*v),
{
    match v {
        Some(s) => append_json_quoted(out, s.as_str()),
        None => append_lit(out, "null"),
    }
}

/// The JSON form of a pair of strings: a two-element array.
pub open spec fn json_string_pair(p: (String, String)) -> Seq<u8> {
    seq![91u8] + json_quoted(p.0@) + seq![44u8] + json_quoted(p.1@) + seq![93u8]
}

/// Appends the JSON form of a pair of strings.
fn append_string_pair(out: &mut Vec<u8>, p: &(String, String))
    ensures
        final(out)@ == old(out)@ + json_string_pair(*p),
{
    let ghost start: Seq<u8> = out@;
    out.push(91);
    append_json_quoted(out, p.0.as_str());
    out.push(44);
    append_json_quoted(out, p.1.as_str());
    out.push(93);
    proof {
        assert(out@ =~= start + json_string_pair(*p));
    }
}

/// The flattened service fields of one service record, each with its
/// leading comma, in declaration order.
#[verifier::opaque]
pub open spec fn json_service_fields(s: crate::dto::ServiceDto) -> Seq<u8> {
    ",\"execMainPid\":".spec_bytes() + dec_rep(s.exec_main_pid as nat) + ",\"execMainCode\":".spec_bytes() + json_int(s.exec_main_code as int) + ",\"execMainStatus\":".spec_bytes() + json_int(s.exec_main_status as int) + ",\"memoryCurrent\":".spec_bytes() + dec_rep(s.memory_current as nat) + ",\"cpuUsageNsec\":".spec_bytes() + dec_rep(s.cpu_usage_nsec as nat) + ",\"tasksCurrent\":".spec_bytes() + dec_rep(s.tasks_current as nat) + ",\"result\":".spec_bytes() + json_quoted(s.result@) + ",\"statusText\":".spec_bytes() + json_quoted(s.status_text@) + ",\"statusErrno\":".spec_bytes() + json_int(s.status_errno as int) + ",\"execStart\":".spec_bytes() + json_exec_array(s.exec_start@) + ",\"extraMainName\":".spec_bytes() + json_opt_string(s.extra_main_name)
}

/// Appends the flattened service fields of one service record.
#[verifier::rlimit(100)]
#[verifier::spinoff_prover]
fn append_service_fields(out: &mut Vec<u8>, s: &crate::dto::ServiceDto)
    ensures
        final(out)@ == old(out)@ + json_service_fields(*s),
{
    let ghost start: Seq<u8> = out@;
    append_lit(out, ",\"execMainPid\":");
    let ghost acc0: Seq<u8> = ",\"execMainPid\":".spec_bytes();
    proof {
        assert(out@ =~= start + acc0);
    }
    append_u64(out, s.exec_main_pid as u64);
    let ghost acc1: Seq<u8> = acc0 + dec_rep(s.exec_main_pid as nat);
    proof {
        assert(out@ =~= start + acc1);
    }
    append_lit(out, ",\"execMainCode\":");
    let ghost acc2: Seq<u8> = acc1 + ",\"execMainCode\":".spec_bytes();
    proof {
        assert(out@ =~= start + acc2);
    }
    append_i32(out, s.exec_main_code);
    let ghost acc3: Seq<u8> = acc2 + json_int(s.exec_main_code as int);
    proof {
        assert(out@ =~= start + acc3);
    }
    append_lit(out, ",\"execMainStatus\":");
    let ghost acc4: Seq<u8> = acc3 + ",\"execMainStatus\":".spec_bytes();
    proof {
        assert(out@ =~= start + acc4);
    }
    append_i32(out, s.exec_main_status);
    let ghost acc5: Seq<u8> = acc4 + json_int(s.exec_main_status as int);
    proof {
        assert(out@ =~= start + acc5);
    }
    append_lit(out, ",\"memoryCurrent\":");
    let ghost acc6: Seq<u8> = acc5 + ",\"memoryCurrent\":".spec_bytes();
    proof {
        assert(out@ =~= start + acc6);
    }
    append_u64(out, s.memory_current);
    let ghost acc7: Seq<u8> = acc6 + dec_rep(s.memory_current as nat);
    proof {
        assert(out@ =~= start + acc7);
    }
    append_lit(out, ",\"cpuUsageNsec\":");
    let ghost acc8: Seq<u8> = acc7 + ",\"cpuUsageNsec\":".spec_bytes();
    proof {
        assert(out@ =~= start + acc8);
    }
    append_u64(out, s.cpu_usage_nsec);
    let ghost acc9: Seq<u8> = acc8 + dec_rep(s.cpu_usage_nsec as nat);
    proof {
        assert(out@ =~= start + acc9);
    }
    append_lit(out, ",\"tasksCurrent\":");
    let ghost acc10: Seq<u8> = acc9 + ",\"tasksCurrent\":".spec_bytes();
    proof {
        assert(out@ =~= start + acc10);
    }
    append_u64(out, s.tasks_current);
    let ghost acc11: Seq<u8> = acc10 + dec_rep(s.tasks_current as nat);
    proof {
        assert(out@ =~= start + acc11);
    }
    append_lit(out, ",\"result\":");
    let ghost acc12: Seq<u8> = acc11 + ",\"result\":".spec_bytes();
    proof {
        assert(out@ =~= start + acc12);
    }
    append_json_quoted(out, s.result.as_str());
    let ghost acc13: Seq<u8> = acc12 + json_quoted(s.result@);
    proof {
        assert(out@ =~= start + acc13);
    }
    append_lit(out, ",\"statusText\":");
    let ghost acc14: Seq<u8> = acc13 + ",\"statusText\":".spec_bytes();
    proof {
        assert(out@ =~= start + acc14);
    }
    append_json_quoted(out, s.status_text.as_str());
    let ghost acc15: Seq<u8> = acc14 + json_quoted(s.status_text@);
    proof {
        assert(out@ =~= start + acc15);
    }
    append_lit(out, ",\"statusErrno\":");
    let ghost acc16: Seq<u8> = acc15 + ",\"statusErrno\":".spec_bytes();
    proof {
        assert(out@ =~= start + acc16);
    }
    append_i32(out, s.status_errno);
    let ghost acc17: Seq<u8> = acc16 + json_int(s.status_errno as int);
    proof {
        assert(out@ =~= start + acc17);
    }
    append_lit(out, ",\"execStart\":");
    let ghost acc18: Seq<u8> = acc17 + ",\"execStart\":".spec_bytes();
    proof {
        assert(out@ =~= start + acc18);
    }
    append_exec_array(out, &s.exec_start);
    let ghost acc19: Seq<u8> = acc18 + json_exec_array(s.exec_start@);
    proof {
        assert(out@ =~= start + acc19);
    }
    append_lit(out, ",\"extraMainName\":");
    let ghost acc20: Seq<u8> = acc19 + ",\"extraMainName\":".spec_bytes();
    proof {
        assert(out@ =~= start + acc20);
    }
    append_opt_string(out, &s.extra_main_name);
    let ghost acc21: Seq<u8> = acc20 + json_opt_string(s.extra_main_name);
    proof {
        assert(out@ =~= start + acc21);
    }
    proof {
        reveal(json_service_fields);
        assert(acc21 == json_service_fields(*s));
    }
}

/// The JSON object of one unit record: the unit fields in declaration
/// order, then — when a service record is attached — its fields
/// flattened into the same object, never nested under a sub-key.
#[verifier::opaque]
pub open spec fn json_of_unit(u: crate::dto::UnitDto) -> Seq<u8> {
    "{\"id\":".spec_bytes() + json_quoted(u.id@) + ",\"names\":".spec_bytes() + json_string_array(u.names@) + ",\"description\":".spec_bytes() + json_quoted(u.description@) + ",\"documentation\":".spec_bytes() + json_string_array(u.documentation@) + ",\"triggeredBy\":".spec_bytes() + json_string_array(u.triggered_by@) + ",\"loadState\":".spec_bytes() + json_quoted(u.load_state@) + ",\"activeState\":".spec_bytes() + json_quoted(u.active_state@) + ",\"subState\":".spec_bytes() + json_quoted(u.sub_state@) + ",\"loadError\":".spec_bytes() + json_string_pair(u.load_error) + ",\"fragmentPath\":".spec_bytes() + json_quoted(u.fragment_path@) + ",\"unitFileState\":".spec_bytes() + json_quoted(u.unit_file_state@) + ",\"unitFilePreset\":".spec_bytes() + json_quoted(u.unit_file_preset@) + ",\"stateChangeTimestamp\":".spec_bytes() + dec_rep(u.state_change_timestamp as nat) + (match u.service {
        Some(s) => json_service_fields(s),
        None => Seq::<u8>::empty(),
    }) + "}".spec_bytes()
}

/// Serializes one unit record to its JSON object.
#[verifier::rlimit(100)]
#[verifier::spinoff_prover]
pub fn unit_to_json(u: &crate::dto::UnitDto) -> (r: Vec<u8>)
    ensures
        r@ == json_of_unit(*u),
{
    let mut out: Vec<u8> = Vec::new();
    let ghost start: Seq<u8> = out@;
    append_lit(&mut out, "{\"id\":");
    let ghost acc0: Seq<u8> = "{\"id\":".spec_bytes();
    proof {
        assert(out@ =~= start + acc0);
    }
    append_json_quoted(&mut out, u.id.as_str());
    let ghost acc1: Seq<u8> = acc0 + json_quoted(u.id@);
    proof {
        assert(out@ =~= start + acc1);
    }
    append_lit(&mut out, ",\"names\":");
    let ghost acc2: Seq<u8> = acc1 + ",\"names\":".spec_bytes();
    proof {
        assert(out@ =~= start + acc2);
    }
    append_string_array(&mut out, &u.names);
    let ghost acc3: Seq<u8> = acc2 + json_string_array(u.names@);
    proof {
        assert(out@ =~= start + acc3);
    }
    append_lit(&mut out, ",\"description\":");
    let ghost acc4: Seq<u8> = acc3 + ",\"description\":".spec_bytes();
    proof {
        assert(out@ =~= start + acc4);
    }
    append_json_quoted(&mut out, u.description.as_str());
    let ghost acc5: Seq<u8> = acc4 + json_quoted(u.description@);
    proof {
        assert(out@ =~= start + acc5);
    }
    append_lit(&mut out, ",\"documentation\":");
    let ghost acc6: Seq<u8> = acc5 + ",\"documentation\":".spec_bytes();
    proof {
        assert(out@ =~= start + acc6);
    }
    append_string_array(&mut out, &u.documentation);
    let ghost acc7: Seq<u8> = acc6 + json_string_array(u.documentation@);
    proof {
        assert(out@ =~= start + acc7);
    }
    append_lit(&mut out, ",\"triggeredBy\":");
    let ghost acc8: Seq<u8> = acc7 + ",\"triggeredBy\":".spec_bytes();
    proof {
        assert(out@ =~= start + acc8);
    }
    append_string_array(&mut out, &u.triggered_by);
    let ghost acc9: Seq<u8> = acc8 + json_string_array(u.triggered_by@);
    proof {
        assert(out@ =~= start + acc9);
    }
    append_lit(&mut out, ",\"loadState\":");
    let ghost acc10: Seq<u8> = acc9 + ",\"loadState\":".spec_bytes();
    proof {
        assert(out@ =~= start + acc10);
    }
    append_json_quoted(&mut out, u.load_state.as_str());
    let ghost acc11: Seq<u8> = acc10 + json_quoted(u.load_state@);
    proof {
        assert(out@ =~= start + acc11);
    }
    append_lit(&mut out, ",\"activeState\":");
    let ghost acc12: Seq<u8> = acc11 + ",\"activeState\":".spec_bytes();
    proof {
        assert(out@ =~= start + acc12);
    }
    append_json_quoted(&mut out, u.active_state.as_str());
    let ghost acc13: Seq<u8> = acc12 + json_quoted(u.active_state@);
    proof {
        assert(out@ =~= start + acc13);
    }
    append_lit(&mut out, ",\"subState\":");
    let ghost acc14: Seq<u8> = acc13 + ",\"subState\":".spec_bytes();
    proof {
        assert(out@ =~= start + acc14);
    }
    append_json_quoted(&mut out, u.sub_state.as_str());
    let ghost acc15: Seq<u8> = acc14 + json_quoted(u.sub_state@);
    proof {
        assert(out@ =~= start + acc15);
    }
    append_lit(&mut out, ",\"loadError\":");
    let ghost acc16: Seq<u8> = acc15 + ",\"loadError\":".spec_bytes();
    proof {
        assert(out@ =~= start + acc16);
    }
    append_string_pair(&mut out, &u.load_error);
    let ghost acc17: Seq<u8> = acc16 + json_string_pair(u.load_error);
    proof {
        assert(out@ =~= start + acc17);
    }
    append_lit(&mut out, ",\"fragmentPath\":");
    let ghost acc18: Seq<u8> = acc17 + ",\"fragmentPath\":".spec_bytes();
    proof {
        assert(out@ =~= start + acc18);
    }
    append_json_quoted(&mut out, u.fragment_path.as_str());
    let ghost acc19: Seq<u8> = acc18 + json_quoted(u.fragment_path@);
    proof {
        assert(out@ =~= start + acc19);
    }
    append_lit(&mut out, ",\"unitFileState\":");
    let ghost acc20: Seq<u8> = acc19 + ",\"unitFileState\":".spec_bytes();
    proof {
        assert(out@ =~= start + acc20);
    }
    append_json_quoted(&mut out, u.unit_file_state.as_str());
    let ghost acc21: Seq<u8> = acc20 + json_quoted(u.unit_file_state@);
    proof {
        assert(out@ =~= start + acc21);
    }
    append_lit(&mut out, ",\"unitFilePreset\":");
    let ghost acc22: Seq<u8> = acc21 + ",\"unitFilePreset\":".spec_bytes();
    proof {
        assert(out@ =~= start + acc22);
    }
    append_json_quoted(&mut out, u.unit_file_preset.as_str());
    let ghost acc23: Seq<u8> = acc22 + json_quoted(u.unit_file_preset@);
    proof {
        assert(out@ =~= start + acc23);
    }
    append_lit(&mut out, ",\"stateChangeTimestamp\":");
    let ghost acc24: Seq<u8> = acc23 + ",\"stateChangeTimestamp\":".spec_bytes();
    proof {
        assert(out@ =~= start + acc24);
    }
    append_u64(&mut out, u.state_change_timestamp);
    let ghost acc25: Seq<u8> = acc24 + dec_rep(u.state_change_timestamp as nat);
    proof {
        assert(out@ =~= start + acc25);
    }
    let ghost svc: Seq<u8> = if u.service is Some {
        json_service_fields(u.service->0)
    } else {
        Seq::<u8>::empty()
    };
    match &u.service {
        Some(s) => append_service_fields(&mut out, s),
        None => {},
    }
    let ghost acc26: Seq<u8> = acc25 + svc;
    proof {
        assert(out@ =~= start + acc26);
    }
    append_lit(&mut out, "}");
    let ghost acc27: Seq<u8> = acc26 + "}".spec_bytes();
    proof {
        assert(out@ =~= start + acc27);
        reveal(json_of_unit);
        assert(acc27 == json_of_unit(*u));
        assert(out@ =~= json_of_unit(*u));
    }
    out
}

/// The JSON object of one unit-table entry, fields in declaration order.
#[verifier::opaque]
pub open spec fn json_of_list_entry(e: crate::dto::UnitListEntry) -> Seq<u8> {
    "{\"name\":".spec_bytes() + json_quoted(e.name@) + ",\"description\":".spec_bytes() + json_quoted(e.description@) + ",\"loadState\":".spec_bytes() + json_quoted(e.load_state@) + ",\"activeState\":".spec_bytes() + json_quoted(e.active_state@) + ",\"subState\":".spec_bytes() + json_quoted(e.sub_state@) + ",\"followed\":".spec_bytes() + json_quoted(e.followed@) + ",\"objectPath\":".spec_bytes() + json_quoted(e.object_path@) + ",\"queuedJobId\":".spec_bytes() + dec_rep(e.queued_job_id as nat) + ",\"queuedJobType\":".spec_bytes() + json_quoted(e.queued_job_type@) + ",\"queuedJobObjectPath\":".spec_bytes() + json_quoted(e.queued_job_object_path@) + "}".spec_bytes()
}

/// Appends the JSON object of one unit-table entry.
#[verifier::rlimit(100)]
#[verifier::spinoff_prover]
fn append_list_entry(out: &mut Vec<u8>, e: &crate::dto::UnitListEntry)
    ensures
        final(out)@ == old(out)@ + json_of_list_entry(*e),
{
    let ghost start: Seq<u8> = out@;
    append_lit(out, "{\"name\":");
    let ghost acc0: Seq<u8> = "{\"name\":".spec_bytes();
    proof {
        assert(out@ =~= start + acc0);
    }
    append_json_quoted(out, e.name.as_str());
    let ghost acc1: Seq<u8> = acc0 + json_quoted(e.name@);
    proof {
        assert(out@ =~= start + acc1);
    }
    append_lit(out, ",\"description\":");
    let ghost acc2: Seq<u8> = acc1 + ",\"description\":".spec_bytes();
    proof {
        assert(out@ =~= start + acc2);
    }
    append_json_quoted(out, e.description.as_str());
    let ghost acc3: Seq<u8> = acc2 + json_quoted(e.description@);
    proof {
        assert(out@ =~= start + acc3);
    }
    append_lit(out, ",\"loadState\":");
    let ghost acc4: Seq<u8> = acc3 + ",\"loadState\":".spec_bytes();
    proof {
        assert(out@ =~= start + acc4);
    }
    append_json_quoted(out, e.load_state.as_str());
    let ghost acc5: Seq<u8> = acc4 + json_quoted(e.load_state@);
    proof {
        assert(out@ =~= start + acc5);
    }
    append_lit(out, ",\"activeState\":");
    let ghost acc6: Seq<u8> = acc5 + ",\"activeState\":".spec_bytes();
    proof {
        assert(out@ =~= start + acc6);
    }
    append_json_quoted(out, e.active_state.as_str());
    let ghost acc7: Seq<u8> = acc6 + json_quoted(e.active_state@);
    proof {
        assert(out@ =~= start + acc7);
    }
    append_lit(out, ",\"subState\":");
    let ghost acc8: Seq<u8> = acc7 + ",\"subState\":".spec_bytes();
    proof {
        assert(out@ =~= start + acc8);
    }
    append_json_quoted(out, e.sub_state.as_str());
    let ghost acc9: Seq<u8> = acc8 + json_quoted(e.sub_state@);
    proof {
        assert(out@ =~= start + acc9);
    }
    append_lit(out, ",\"followed\":");
    let ghost acc10: Seq<u8> = acc9 + ",\"followed\":".spec_bytes();
    proof {
        assert(out@ =~= start + acc10);
    }
    append_json_quoted(out, e.followed.as_str());
    let ghost acc11: Seq<u8> = acc10 + json_quoted(e.followed@);
    proof {
        assert(out@ =~= start + acc11);
    }
    append_lit(out, ",\"objectPath\":");
    let ghost acc12: Seq<u8> = acc11 + ",\"objectPath\":".spec_bytes();
    proof {
        assert(out@ =~= start + acc12);
    }
    append_json_quoted(out, e.object_path.as_str());
    let ghost acc13: Seq<u8> = acc12 + json_quoted(e.object_path@);
    proof {
        assert(out@ =~= start + acc13);
    }
    append_lit(out, ",\"queuedJobId\":");
    let ghost acc14: Seq<u8> = acc13 + ",\"queuedJobId\":".spec_bytes();
    proof {
        assert(out@ =~= start + acc14);
    }
    append_u64(out, e.queued_job_id as u64);
    let ghost acc15: Seq<u8> = acc14 + dec_rep(e.queued_job_id as nat);
    proof {
        assert(out@ =~= start + acc15);
    }
    append_lit(out, ",\"queuedJobType\":");
    let ghost acc16: Seq<u8> = acc15 + ",\"queuedJobType\":".spec_bytes();
    proof {
        assert(out@ =~= start + acc16);
    }
    append_json_quoted(out, e.queued_job_type.as_str());
    let ghost acc17: Seq<u8> = acc16 + json_quoted(e.queued_job_type@);
    proof {
        assert(out@ =~= start + acc17);
    }
    append_lit(out, ",\"queuedJobObjectPath\":");
    let ghost acc18: Seq<u8> = acc17 + ",\"queuedJobObjectPath\":".spec_bytes();
    proof {
        assert(out@ =~= start + acc18);
    }
    append_json_quoted(out, e.queued_job_object_path.as_str());
    let ghost acc19: Seq<u8> = acc18 + json_quoted(e.queued_job_object_path@);
    proof {
        assert(out@ =~= start + acc19);
    }
    append_lit(out, "}");
    let ghost acc20: Seq<u8> = acc19 + "}".spec_bytes();
    proof {
        assert(out@ =~= start + acc20);
    }
    proof {
        reveal(json_of_list_entry);
        assert(acc20 == json_of_list_entry(*e));
    }
}


/// The comma-joined object forms of a sequence of unit-table entries.
pub open spec fn json_list_items(v: Seq<crate::dto::UnitListEntry>) -> Seq<u8>
    decreases v.len(),
{
    if v.len() == 0 {
        Seq::empty()
    } else if v.len() == 1 {
        json_of_list_entry(v[0])
    } else {
        json_of_list_entry(v[0]) + seq![44u8] + json_list_items(v.drop_first())
    }
}

/// The JSON array of a sequence of unit-table entries, in order.
pub open spec fn json_list_array(v: Seq<crate::dto::UnitListEntry>) -> Seq<u8> {
    seq![91u8] + json_list_items(v) + seq![93u8]
}

proof fn lemma_json_list_items_snoc(v: Seq<crate::dto::UnitListEntry>, i: int)
    requires
        0 <= i < v.len(),
    ensures
        json_list_items(v.take(i + 1)) == if i == 0 {
            json_of_list_entry(v[0])
        } else {
            json_list_items(v.take(i)) + seq![44u8] + json_of_list_entry(v[i])
        },
    decreases i,
{
    if i == 0 {
        assert(v.take(1) =~= seq![v[0]]);
        assert(json_list_items(v.take(1)) == json_of_list_entry(v.take(1)[0]));
    } else {
        let t = v.drop_first();
        lemma_json_list_items_snoc(t, i - 1);
        assert(v.take(i + 1).drop_first() =~= t.take(i));
        assert(v.take(i).drop_first() =~= t.take(i - 1));
        assert(v.take(i + 1)[0] == v[0]);
        assert(v.take(i)[0] == v[0]);
        assert(t[i - 1] == v[i]);
        if i == 1 {
            assert(v.take(2).len() == 2);
            assert(json_list_items(v.take(2)) == json_of_list_entry(v[0]) + seq![44u8]
                + json_list_items(t.take(1)));
            assert(t.take(1) =~= seq![t[0]]);
            assert(json_list_items(t.take(1)) == json_of_list_entry(t[0]));
            assert(v.take(1) =~= seq![v[0]]);
            assert(json_list_items(v.take(1)) == json_of_list_entry(v[0]));
        } else {
            assert(json_list_items(v.take(i + 1)) == json_of_list_entry(v[0]) + seq![44u8]
                + json_list_items(t.take(i)));
            assert(json_list_items(t.take(i)) == json_list_items(t.take(i - 1)) + seq![44u8]
                + json_of_list_entry(t[i - 1]));
            assert(json_list_items(v.take(i)) == json_of_list_entry(v[0]) + seq![44u8]
                + json_list_items(t.take(i - 1)));
            assert(json_of_list_entry(v[0]) + seq![44u8] + (json_list_items(t.take(i - 1))
                + seq![44u8] + json_of_list_entry(v[i])) =~= (json_of_list_entry(v[0]) + seq![44u8]
                + json_list_items(t.take(i - 1))) + seq![44u8] + json_of_list_entry(v[i]));
        }
    }
}

/// Serializes the whole unit table to one JSON array, entries in order.
pub fn unit_list_to_json(v: &Vec<crate::dto::UnitListEntry>) -> (r: Vec<u8>)
    ensures
        r@ == json_list_array(v@),
{
    let mut out: Vec<u8> = Vec::new();
    let ghost start: Seq<u8> = out@;
    out.push(91);
    proof {
        assert(v@.take(0) =~= Seq::<crate::dto::UnitListEntry>::empty());
        assert(out@ =~= start + seq![91u8] + json_list_items(v@.take(0)));
    }
    let n: usize = v.len();
    let mut i: usize = 0;
    while i < n
        invariant
            n == v@.len(),
            0 <= i <= n,
            out@ == start + seq![91u8] + json_list_items(v@.take(i as int)),
        decreases n - i,
    {
        proof {
            lemma_json_list_items_snoc(v@, i as int);
        }
        if i > 0 {
            out.push(44);
        }
        append_list_entry(&mut out, &v[i]);
        proof {
            if i == 0 {
                assert(out@ =~= start + seq![91u8] + json_list_items(v@.take(i + 1)));
            } else {
                assert(out@ =~= start + seq![91u8] + (json_list_items(v@.take(i as int))
                    + seq![44u8] + json_of_list_entry(v@[i as int])));
            }
        }
        i = i + 1;
    }
    out.push(93);
    proof {
        assert(v@.take(n as int) =~= v@);
        assert(out@ =~= start + json_list_array(v@));
        assert(out@ =~= json_list_array(v@));
    }
    out
}

/// The JSON object of the namespace/inner-code pair.
pub open spec fn json_of_error_type(t: crate::api_errors::ErrorType) -> Seq<u8> {
    "{\"namespace\":".spec_bytes() + json_quoted(t.namespace@) + ",\"inner\":".spec_bytes()
        + json_opt_string(t.inner) + "}".spec_bytes()
}

/// The JSON object of one externally reported failure.
#[verifier::opaque]
pub open spec fn json_of_error_data(d: crate::api_errors::ApiErrorData) -> Seq<u8> {
    "{\"status\":".spec_bytes() + dec_rep(d.status as nat) + ",\"errorType\":".spec_bytes()
        + json_of_error_type(d.error_type) + ",\"message\":".spec_bytes() + json_opt_string(
        d.message,
    ) + "}".spec_bytes()
}

/// Serializes one failure record to its JSON object.
#[verifier::rlimit(100)]
#[verifier::spinoff_prover]
pub fn error_data_to_json(d: &crate::api_errors::ApiErrorData) -> (r: Vec<u8>)
    ensures
        r@ == json_of_error_data(*d),
{
    let mut out: Vec<u8> = Vec::new();
    let ghost start: Seq<u8> = out@;
    append_lit(&mut out, "{\"status\":");
    let ghost acc0: Seq<u8> = "{\"status\":".spec_bytes();
    proof {
        assert(out@ =~= start + acc0);
    }
    append_u64(&mut out, d.status as u64);
    let ghost acc1: Seq<u8> = acc0 + dec_rep(d.status as nat);
    proof {
        assert(out@ =~= start + acc1);
    }
    append_lit(&mut out, ",\"errorType\":");
    let ghost acc2: Seq<u8> = acc1 + ",\"errorType\":".spec_bytes();
    proof {
        assert(out@ =~= start + acc2);
    }
    append_lit(&mut out, "{\"namespace\":");
    let ghost acc3: Seq<u8> = acc2 + "{\"namespace\":".spec_bytes();
    proof {
        assert(out@ =~= start + acc3);
    }
    append_json_quoted(&mut out, d.error_type.namespace.as_str());
    let ghost acc4: Seq<u8> = acc3 + json_quoted(d.error_type.namespace@);
    proof {
        assert(out@ =~= start + acc4);
    }
    append_lit(&mut out, ",\"inner\":");
    let ghost acc5: Seq<u8> = acc4 + ",\"inner\":".spec_bytes();
    proof {
        assert(out@ =~= start + acc5);
    }
    append_opt_string(&mut out, &d.error_type.inner);
    let ghost acc6: Seq<u8> = acc5 + json_opt_string(d.error_type.inner);
    proof {
        assert(out@ =~= start + acc6);
    }
    append_lit(&mut out, "}");
    let ghost acc7: Seq<u8> = acc6 + "}".spec_bytes();
    proof {
        assert(out@ =~= start + acc7);
    }
    append_lit(&mut out, ",\"message\":");
    let ghost acc8: Seq<u8> = acc7 + ",\"message\":".spec_bytes();
    proof {
        assert(out@ =~= start + acc8);
    }
    append_opt_string(&mut out, &d.message);
    let ghost acc9: Seq<u8> = acc8 + json_opt_string(d.message);
    proof {
        assert(out@ =~= start + acc9);
    }
    append_lit(&mut out, "}");
    let ghost acc10: Seq<u8> = acc9 + "}".spec_bytes();
    proof {
        assert(out@ =~= start + acc10);
    }
    proof {
        reveal(json_of_error_data);
        assert(acc10 =~= json_of_error_data(*d));
        assert(out@ =~= json_of_error_data(*d));
    }
    out
}

} // verus!
