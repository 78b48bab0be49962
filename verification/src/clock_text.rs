//! Readable text for the desktop clock: filling label templates, naming
//! NTP header fields, and summarising the bytes after an NTP header.
use vstd::prelude::*;

use crate::clock_strings::Strings;
use crate::ntp::be_u32_at;
use crate::text::{
    chars_of, decimal, push_char, push_chars, push_decimal, push_str, str_eq, string_from_chars,
};

verus! {

// ---------------------------------------------------------------------------
// Templates
// ---------------------------------------------------------------------------
/// The placeholder starting at `i`, as the index of its closing brace: `{}`,
/// or `{:.` followed by anything up to the next `}`.
pub open spec fn placeholder_end(s: Seq<char>, i: int) -> Option<int> {
    if 0 <= i && i + 1 < s.len() && s[i] == '{' && s[i + 1] == '}' {
        Some(i + 1)
    } else if 0 <= i && i + 2 < s.len() && s[i] == '{' && s[i + 1] == ':' && s[i + 2] == '.' {
        match next_close(s, i) {
            Some(e) => Some(e),
            None => None,
        }
    } else {
        None
    }
}

/// The first `}` at or after `i`.
pub open spec fn next_close(s: Seq<char>, i: int) -> Option<int>
    decreases s.len() - i,
{
    if i < 0 || i >= s.len() {
        None
    } else if s[i] == '}' {
        Some(i)
    } else {
        next_close(s, i + 1)
    }
}

/// The first placeholder at or after `i`, as its first and last index.
pub open spec fn first_placeholder(s: Seq<char>, i: int) -> Option<(int, int)>
    decreases s.len() - i,
{
    if i < 0 || i >= s.len() {
        None
    } else {
        match placeholder_end(s, i) {
            Some(e) => Some((i, e)),
            None => first_placeholder(s, i + 1),
        }
    }
}

/// The text of `template` from index `i` on, with its placeholders replaced
/// by `args` in order: each argument takes the next placeholder of the
/// template itself (never one inside an argument already put in), and
/// filling stops when no placeholder is left.
pub open spec fn fill_from(template: Seq<char>, i: int, args: Seq<Seq<char>>) -> Seq<char>
    decreases args.len(),
{
    if args.len() == 0 {
        template.subrange(i, template.len() as int)
    } else {
        match first_placeholder(template, i) {
            None => template.subrange(i, template.len() as int),
            Some((a, e)) => template.subrange(i, a) + args[0] + fill_from(
                template,
                e + 1,
                args.drop_first(),
            ),
        }
    }
}

/// `template` with its placeholders replaced by `args` in order.
pub open spec fn fill(template: Seq<char>, args: Seq<Seq<char>>) -> Seq<char> {
    fill_from(template, 0, args)
}

pub proof fn lemma_next_close_in_range(s: Seq<char>, i: int)
    ensures
        next_close(s, i) matches Some(e) ==> i <= e < s.len() && s[e] == '}',
    decreases s.len() - i,
{
    if 0 <= i < s.len() && s[i] != '}' {
        lemma_next_close_in_range(s, i + 1);
    }
}

pub proof fn lemma_first_placeholder_in_range(s: Seq<char>, i: int)
    ensures
        first_placeholder(s, i) matches Some((a, e)) ==> i <= a < e < s.len(),
    decreases s.len() - i,
{
    if 0 <= i < s.len() {
        lemma_next_close_in_range(s, i);
        if placeholder_end(s, i) is None {
            lemma_first_placeholder_in_range(s, i + 1);
        }
    }
}

fn next_close_exec(s: &Vec<char>, i: usize) -> (r: Option<usize>)
    ensures
        r matches Some(e) ==> next_close(s@, i as int) == Some(e as int),
        r is None ==> next_close(s@, i as int) is None,
{
    let mut j = i;
    while j < s.len()
        invariant
            i <= j,
            next_close(s@, i as int) == next_close(s@, j as int),
        decreases s@.len() - j,
    {
        if s[j] == '}' {
            return Some(j);
        }
        j += 1;
    }
    None
}

fn first_placeholder_exec(s: &Vec<char>, from: usize) -> (r: Option<(usize, usize)>)
    ensures
        r matches Some((a, e)) ==> first_placeholder(s@, from as int) == Some((a as int, e as int)),
        r is None ==> first_placeholder(s@, from as int) is None,
{
    let mut i: usize = from;
    while i < s.len()
        invariant
            from <= i,
            first_placeholder(s@, from as int) == first_placeholder(s@, i as int),
        decreases s@.len() - i,
    {
        if s[i] == '{' {
            if i + 1 < s.len() && s[i + 1] == '}' {
                return Some((i, i + 1));
            }
            if s.len() - i > 2 && s[i + 1] == ':' && s[i + 2] == '.' {
                match next_close_exec(s, i) {
                    Some(e) => { return Some((i, e)) },
                    None => {},
                }
            }
        }
        i += 1;
    }
    None
}

/// Appends the characters of `t` from `from` up to `to`.
fn push_span(out: &mut String, t: &Vec<char>, from: usize, to: usize)
    requires
        from <= to <= t@.len(),
    ensures
        final(out)@ == old(out)@ + t@.subrange(from as int, to as int),
{
    let mut i = from;
    while i < to
        invariant
            from <= i <= to <= t@.len(),
            out@ == old(out)@ + t@.subrange(from as int, i as int),
        decreases to - i,
    {
        push_char(out, t[i]);
        proof {
            assert(t@.subrange(from as int, i + 1) =~= t@.subrange(from as int, i as int).push(t@[i as int]));
        }
        i += 1;
    }
}

/// Fills the placeholders of `template` with `args`, in order.
pub fn fill_template(template: &str, args: &[&str]) -> (r: String)
    ensures
        r@ == fill(template@, args@.map_values(|a: &str| a@)),
{
    let ghost all = args@.map_values(|a: &str| a@);
    let t = chars_of(template);
    let n: usize = t.len();
    let mut out = String::new();
    let mut pos: usize = 0;
    let mut k: usize = 0;
    assert(all.skip(0) =~= all);
    assert(out@ + fill_from(t@, 0, all) =~= fill(template@, all));
    while k < args.len()
        invariant
            k <= args@.len(),
            pos <= t@.len(),
            n == t@.len(),
            t@ == template@,
            all == args@.map_values(|a: &str| a@),
            out@ + fill_from(t@, pos as int, all.skip(k as int)) == fill(template@, all),
        decreases args@.len() - k,
    {
        proof {
            lemma_first_placeholder_in_range(t@, pos as int);
        }
        match first_placeholder_exec(&t, pos) {
            None => {
                push_span(&mut out, &t, pos, t.len());
                return out;
            },
            Some((a, e)) => {
                assert(pos <= a < e < n);
                push_span(&mut out, &t, pos, a);
                let ghost before = out@;
                push_str(&mut out, args[k]);
                proof {
                    assert(all.skip(k as int)[0] == args@[k as int]@);
                    assert(all.skip(k as int).drop_first() =~= all.skip(k + 1));
                    assert(out@ == before + all.skip(k as int)[0]);
                }
                pos = e + 1;
                k += 1;
            },
        }
    }
    proof {
        assert(all.skip(args@.len() as int) =~= Seq::<Seq<char>>::empty());
    }
    push_span(&mut out, &t, pos, t.len());
    out
}

/// `s` with every `{}` replaced by `with`, scanning left to right.
pub open spec fn replace_braces(s: Seq<char>, with: Seq<char>) -> Seq<char>
    decreases s.len(),
{
    if s.len() == 0 {
        s
    } else if s.len() >= 2 && s[0] == '{' && s[1] == '}' {
        with + replace_braces(s.skip(2), with)
    } else {
        seq![s[0]] + replace_braces(s.skip(1), with)
    }
}

fn replace_braces_exec(s: &str, with: &Vec<char>) -> (r: String)
    ensures
        r@ == replace_braces(s@, with@),
{
    let chars = chars_of(s);
    let mut out = String::new();
    let mut i: usize = 0;
    assert(chars@.skip(0) =~= chars@);
    assert(out@ + replace_braces(chars@, with@) =~= replace_braces(chars@, with@));
    while i < chars.len()
        invariant
            i <= chars@.len(),
            chars@ == s@,
            out@ + replace_braces(chars@.skip(i as int), with@) == replace_braces(s@, with@),
        decreases chars@.len() - i,
    {
        let ghost before = out@;
        let ghost rest = chars@.skip(i as int);
        if i + 1 < chars.len() && chars[i] == '{' && chars[i + 1] == '}' {
            push_chars(&mut out, with.as_slice());
            proof {
                assert(rest.skip(2) =~= chars@.skip(i + 2));
                let tail = replace_braces(chars@.skip(i + 2), with@);
                assert(replace_braces(rest, with@) == with@ + tail);
                assert(out@ + tail =~= before + (with@ + tail));
            }
            i += 2;
        } else {
            crate::text::push_char(&mut out, chars[i]);
            proof {
                assert(rest.skip(1) =~= chars@.skip(i + 1));
                let tail = replace_braces(chars@.skip(i + 1), with@);
                assert(replace_braces(rest, with@) == seq![rest[0]] + tail);
                assert(out@ + tail =~= before + (seq![rest[0]] + tail));
            }
            i += 1;
        }
    }
    proof {
        assert(chars@.skip(chars@.len() as int) =~= Seq::<char>::empty());
        assert(out@ + Seq::<char>::empty() =~= out@);
    }
    out
}

// ---------------------------------------------------------------------------
// Header fields
// ---------------------------------------------------------------------------
/// The label describing the leap indicator `li`.
pub fn leap_text(s: &Strings, li: u8) -> (t: &'static str)
    ensures
        t == (if li == 0 {
            s.leap_none
        } else if li == 1 {
            s.leap_61
        } else if li == 2 {
            s.leap_59
        } else {
            s.leap_alarm
        }),
{
    match li {
        0 => s.leap_none,
        1 => s.leap_61,
        2 => s.leap_59,
        _ => s.leap_alarm,
    }
}

/// The label describing `stratum`; a secondary stratum is written into the
/// label's `{}` placeholders.
pub fn stratum_text(s: &Strings, stratum: u8) -> (t: String)
    ensures
        t@ == (if stratum == 0 {
            s.stratum_unspec@
        } else if stratum == 1 {
            s.stratum_primary@
        } else if stratum <= 15 {
            replace_braces(s.stratum_secondary@, decimal(stratum as nat))
        } else {
            s.stratum_unsync@
        }),
{
    if stratum == 0 {
        crate::text::string_from_str(s.stratum_unspec)
    } else if stratum == 1 {
        crate::text::string_from_str(s.stratum_primary)
    } else if stratum <= 15 {
        let mut number = String::new();
        push_decimal(&mut number, stratum as u64);
        let digits = chars_of(number.as_str());
        assert(digits@ =~= decimal(stratum as nat));
        replace_braces_exec(s.stratum_secondary, &digits)
    } else {
        crate::text::string_from_str(s.stratum_unsync)
    }
}

/// The meaning of a Kiss-o'-Death code.
pub open spec fn kod_meaning(code: Seq<char>) -> &'static str {
    if code == "RATE"@ {
        "Rate limit exceeded, back off"
    } else if code == "DENY"@ {
        "Access denied"
    } else if code == "RSTR"@ {
        "Access restricted"
    } else if code == "UNSYNC"@ {
        "Server not synchronized"
    } else if code == "INIT"@ {
        "Association initialized"
    } else if code == "STEP"@ {
        "Step time change"
    } else if code == "ACST"@ {
        "Access denied by ACL"
    } else if code == "AUTH"@ {
        "Authentication failed"
    } else if code == "DROP"@ {
        "Packet dropped"
    } else if code == "NCST"@ {
        "No association"
    } else if code == "NKEY"@ {
        "Key not found"
    } else if code == "XKEY"@ {
        "Key expired"
    } else if code == "TIME"@ {
        "Time changed"
    } else {
        "Unknown KoD code"
    }
}

/// Describes a Kiss-o'-Death code.
pub fn kod_description(code: &str) -> (t: &'static str)
    ensures
        t == kod_meaning(code@),
{
    if str_eq(code, "RATE") {
        "Rate limit exceeded, back off"
    } else if str_eq(code, "DENY") {
        "Access denied"
    } else if str_eq(code, "RSTR") {
        "Access restricted"
    } else if str_eq(code, "UNSYNC") {
        "Server not synchronized"
    } else if str_eq(code, "INIT") {
        "Association initialized"
    } else if str_eq(code, "STEP") {
        "Step time change"
    } else if str_eq(code, "ACST") {
        "Access denied by ACL"
    } else if str_eq(code, "AUTH") {
        "Authentication failed"
    } else if str_eq(code, "DROP") {
        "Packet dropped"
    } else if str_eq(code, "NCST") {
        "No association"
    } else if str_eq(code, "NKEY") {
        "Key not found"
    } else if str_eq(code, "XKEY") {
        "Key expired"
    } else if str_eq(code, "TIME") {
        "Time changed"
    } else {
        "Unknown KoD code"
    }
}

/// The name of an NTP association mode.
pub open spec fn mode_name(mode: u8) -> &'static str {
    if mode == 1 {
        "Symmetric active"
    } else if mode == 2 {
        "Symmetric passive"
    } else if mode == 3 {
        "Client"
    } else if mode == 4 {
        "Server"
    } else if mode == 5 {
        "Broadcast"
    } else if mode == 6 {
        "NTP control"
    } else if mode == 7 {
        "Private use"
    } else {
        "Reserved"
    }
}

/// Describes an NTP association mode.
pub fn mode_text(mode: u8) -> (t: &'static str)
    ensures
        t == mode_name(mode),
{
    match mode {
        1 => "Symmetric active",
        2 => "Symmetric passive",
        3 => "Client",
        4 => "Server",
        5 => "Broadcast",
        6 => "NTP control",
        7 => "Private use",
        _ => "Reserved",
    }
}

/// As many asterisks as `value` has characters, hiding it without changing
/// the layout.
pub fn mask(value: &str) -> (m: String)
    ensures
        m@ == Seq::new(value@.len(), |i: int| '*'),
{
    let n = value.unicode_len();
    let mut m = String::new();
    let mut i: usize = 0;
    while i < n
        invariant
            i <= n,
            n == value@.len(),
            m@ == Seq::new(i as nat, |k: int| '*'),
        decreases n - i,
    {
        crate::text::push_char(&mut m, '*');
        assert(m@ =~= Seq::new((i + 1) as nat, |k: int| '*'));
        i += 1;
    }
    m
}

/// The groups of the global server browser.
#[derive(Clone, Copy, Debug, PartialEq, Eq, Structural)]
pub enum GlobalCategory {
    All,
    Corporate,
    OS,
    National,
    Pool,
    Vendor,
}

impl GlobalCategory {
    pub open spec fn label_spec(self) -> &'static str {
        match self {
            GlobalCategory::All => "All",
            GlobalCategory::Corporate => "Corporate & Hyper-Scalers",
            GlobalCategory::OS => "OS & Distribution Defaults",
            GlobalCategory::National => "National Laboratories & Government Standards (Stratum 1)",
            GlobalCategory::Pool => "NTP Pools",
            GlobalCategory::Vendor => "Vendor & Hardware Defaults",
        }
    }

    pub fn label(&self) -> (l: &'static str)
        ensures
            l == self.label_spec(),
    {
        match self {
            GlobalCategory::All => "All",
            GlobalCategory::Corporate => "Corporate & Hyper-Scalers",
            GlobalCategory::OS => "OS & Distribution Defaults",
            GlobalCategory::National => "National Laboratories & Government Standards (Stratum 1)",
            GlobalCategory::Pool => "NTP Pools",
            GlobalCategory::Vendor => "Vendor & Hardware Defaults",
        }
    }
}

// ---------------------------------------------------------------------------
// Transmit timestamp and extension fields
// ---------------------------------------------------------------------------
/// Seconds between the NTP epoch (1900-01-01) and the Unix epoch (1970-01-01).
pub const NTP_TIMESTAMP_DELTA: u64 = 2_208_988_800;

/// The transmit timestamp of a response.
#[derive(Clone, Copy, Debug, PartialEq, Eq, Structural)]
pub struct TransmitTimestamp {
    /// Whole seconds since the NTP epoch.
    pub seconds: u64,
    /// Fractional seconds as a 32-bit binary fraction.
    pub fraction: u32,
}

impl TransmitTimestamp {
    /// Whole seconds since the Unix epoch; zero for an earlier time.
    pub fn to_unix_seconds(&self) -> (s: u64)
        ensures
            s == if self.seconds >= NTP_TIMESTAMP_DELTA {
                self.seconds - NTP_TIMESTAMP_DELTA
            } else {
                0
            },
    {
        self.seconds.saturating_sub(NTP_TIMESTAMP_DELTA)
    }

    /// The fraction in whole milliseconds, rounded down (0 to 999).
    pub fn millis(&self) -> (m: u64)
        ensures
            m == self.fraction as nat * 1000 / 0x1_0000_0000,
            m < 1000,
    {
        let scaled = self.fraction as u64 * 1000;
        let m = scaled >> 32u64;
        assert(m == scaled / 0x1_0000_0000) by (bit_vector)
            requires
                m == scaled >> 32u64,
        ;
        assert(m < 1000) by (nonlinear_arith)
            requires
                scaled == self.fraction as nat * 1000,
                self.fraction < 0x1_0000_0000,
                m == scaled / 0x1_0000_0000,
        ;
        m
    }
}

/// Reads the transmit timestamp from bytes 40 to 48 of a response.
pub fn parse_transmit_timestamp(packet: &[u8]) -> (t: TransmitTimestamp)
    requires
        packet@.len() >= 48,
    ensures
        t.seconds == be_u32_at(packet@, 40),
        t.fraction == be_u32_at(packet@, 44),
{
    let ts = crate::ntp::NtpTimestamp::from_network_bytes(&packet[40..48]);
    let ts = ts.unwrap();
    assert(packet@.subrange(40, 48)[0] == packet@[40]);
    TransmitTimestamp { seconds: ts.seconds as u64, fraction: ts.fraction }
}

/// The name of an extension field type.
pub open spec fn extension_name(field_type: int) -> &'static str {
    if field_type == 0x0104 {
        "NTS"
    } else if field_type == 0x0202 {
        "NTS Cookie"
    } else if field_type == 0x0203 {
        "NTS Cookie List"
    } else if field_type == 0x0204 {
        "NTS Server Negotiation"
    } else if field_type == 0x0205 {
        "NTS Error"
    } else if field_type == 0x0206 {
        "NTS Authenticator"
    } else if field_type == 0 {
        "Padding"
    } else {
        "Unknown"
    }
}

fn extension_name_exec(field_type: u16) -> (n: &'static str)
    ensures
        n == extension_name(field_type as int),
{
    match field_type {
        0x0104 => "NTS",
        0x0202 => "NTS Cookie",
        0x0203 => "NTS Cookie List",
        0x0204 => "NTS Server Negotiation",
        0x0205 => "NTS Error",
        0x0206 => "NTS Authenticator",
        0x0000 => "Padding",
        _ => "Unknown",
    }
}

/// The big-endian 16-bit value at `i`.
pub open spec fn be_u16_at(p: Seq<u8>, i: int) -> int {
    p[i] as int * 256 + p[i + 1] as int
}

/// The well-formed extension fields from `pos` on, as (type name, length
/// in bytes); the walk stops at a field shorter than 4 bytes or one that
/// runs past the end.
pub open spec fn extension_fields(p: Seq<u8>, pos: int) -> Seq<(Seq<char>, int)>
    decreases p.len() - pos,
{
    if pos < 0 || pos + 4 > p.len() {
        Seq::empty()
    } else {
        let len = be_u16_at(p, pos + 2) * 4;
        if len < 4 || pos + len > p.len() {
            Seq::empty()
        } else {
            seq![(extension_name(be_u16_at(p, pos))@, len)] + extension_fields(p, pos + len)
        }
    }
}

/// `name (len B)` for each field, separated by `, `.
pub open spec fn join_fields(fields: Seq<(Seq<char>, int)>) -> Seq<char>
    decreases fields.len(),
{
    if fields.len() == 0 {
        Seq::empty()
    } else {
        let rest = join_fields(fields.drop_last());
        let f = fields.last();
        let item = f.0 + " ("@ + decimal(f.1 as nat) + " B)"@;
        if rest.len() == 0 {
            item
        } else {
            rest + ", "@ + item
        }
    }
}

/// A summary of what follows the 48-byte header: `none`, the extension
/// fields found, or the size of what is taken to be a MAC.
pub open spec fn extensions_summary(p: Seq<u8>) -> Seq<char> {
    if p.len() <= 48 {
        "none"@
    } else {
        let fields = extension_fields(p, 48);
        if fields.len() == 0 {
            "MAC present ("@ + decimal((p.len() - 48) as nat) + " B)"@
        } else {
            decimal(fields.len()) + " ext field(s): "@ + join_fields(fields)
        }
    }
}

proof fn lemma_join_nonempty(fields: Seq<(Seq<char>, int)>)
    requires
        fields.len() > 0,
    ensures
        join_fields(fields).len() > 0,
    decreases fields.len(),
{
    reveal_strlit(" (");
    if fields.drop_last().len() > 0 {
        lemma_join_nonempty(fields.drop_last());
    }
}

/// Summarises the extension fields or MAC after an NTP header.
pub fn parse_extensions(packet: &[u8]) -> (s: String)
    ensures
        s@ == extensions_summary(packet@),
{
    if packet.len() <= 48 {
        return crate::text::string_from_str("none");
    }
    let ghost all = extension_fields(packet@, 48);
    let mut pos: usize = 48;
    let mut fields: usize = 0;
    let mut summary = String::new();
    let ghost mut seen: Seq<(Seq<char>, int)> = Seq::empty();
    loop
        invariant_except_break
            48 <= pos <= packet@.len(),
            fields <= pos - 48,
            all == seen + extension_fields(packet@, pos as int),
            fields == seen.len(),
            summary@ == join_fields(seen),
        ensures
            all == seen,
            fields == seen.len(),
            summary@ == join_fields(seen),
        decreases packet@.len() - pos,
    {
        if packet.len() - pos < 4 {
            assert(seen + Seq::<(Seq<char>, int)>::empty() =~= seen);
            break;
        }
        let field_type = packet[pos] as u16 * 256 + packet[pos + 1] as u16;
        let len_field = packet[pos + 2] as usize * 256 + packet[pos + 3] as usize;
        let field_len = len_field * 4;
        if field_len < 4 || field_len > packet.len() - pos {
            assert(seen + Seq::<(Seq<char>, int)>::empty() =~= seen);
            break;
        }
        let name = extension_name_exec(field_type);
        let ghost item = (name@, field_len as int);
        proof {
            assert(extension_fields(packet@, pos as int) == seq![item] + extension_fields(
                packet@,
                pos + field_len,
            ));
        }
        if fields > 0 {
            push_str(&mut summary, ", ");
        }
        push_str(&mut summary, name);
        push_str(&mut summary, " (");
        push_decimal(&mut summary, field_len as u64);
        push_str(&mut summary, " B)");
        proof {
            let next = seen.push(item);
            assert(next.drop_last() =~= seen);
            if seen.len() > 0 {
                lemma_join_nonempty(seen);
            }
            assert(summary@ =~= join_fields(next));
            assert(all =~= next + extension_fields(packet@, pos + field_len));
            seen = next;
        }
        fields = fields + 1;
        pos = pos + field_len;
    }
    let mut out = String::new();
    if fields == 0 {
        push_str(&mut out, "MAC present (");
        push_decimal(&mut out, (packet.len() - 48) as u64);
        push_str(&mut out, " B)");
    } else {
        push_decimal(&mut out, fields as u64);
        push_str(&mut out, " ext field(s): ");
        push_chars(&mut out, chars_of(summary.as_str()).as_slice());
    }
    out
}

} // verus!
