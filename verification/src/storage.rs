//! The text format in which an [`AppConfig`] is saved.
//!
//! The format is UTF-8 with one `key=value` record per line:
//!
//! ```text
//! # Master Time configuration
//! version=1
//! poll_interval_secs=60
//! active_server=none
//! server_count=0
//! ```
//!
//! A server record is `server=<percent-encoded name>\t<hostname>`. Percent
//! encoding writes every byte outside the ASCII unreserved set (`A-Z`, `a-z`,
//! `0-9`, `-._~`) as `%` and two upper-case hexadecimal digits. Empty lines
//! and lines starting with `#` are skipped; unknown keys, duplicate keys,
//! missing fields and a server count that does not match the server records
//! are refused. Reading and writing files is the caller's part.
use vstd::prelude::*;

use crate::config::{
    AppConfig, ConfigError, ConfigModel, PollingPreferences, ServerProfile, first_index_of,
    interval_error, profile_error,
};
use crate::text::{
    chars_of, decimal, parse_unsigned, parse_unsigned_spec, push_chars, push_decimal, push_str,
    string_from_chars, string_from_utf8, utf8_bytes, utf8_decode, utf8_encode, lemma_utf8_round_trip,
};
use crate::time::Duration;

verus! {

/// An I/O error of the operating system, carried opaquely.
#[verifier::external_type_specification]
#[verifier::external_body]
pub struct ExIoError(std::io::Error);

/// Errors produced while saving or loading a configuration.
#[derive(Debug)]
#[allow(inconsistent_fields)]
pub enum StorageError {
    Io { operation: &'static str, source: std::io::Error },
    InvalidFormat { line: Option<usize>, message: String },
    InvalidConfig { source: ConfigError },
}

/// The text by which `std::io::Error`'s `Display` describes an error.
///
/// What the operating system says is not stated.
#[verifier::external_body]
pub(crate) fn io_error_text(error: &std::io::Error) -> (s: String) {
    error.to_string()
}

impl StorageError {
    /// The message of the error, when it does not come from the operating
    /// system: then only its beginning is known.
    pub open spec fn known_message(&self) -> Option<Seq<char>> {
        match self {
            StorageError::Io { .. } => None,
            StorageError::InvalidFormat { line: Some(n), message } => Some(
                "invalid configuration on line "@ + decimal(n as nat) + ": "@ + message@,
            ),
            StorageError::InvalidFormat { line: None, message } => Some(
                "invalid configuration: "@ + message@,
            ),
            StorageError::InvalidConfig { source } => Some(
                "configuration validation failed: "@ + source.message(),
            ),
        }
    }

    /// The beginning of the message of an error from the operating system.
    pub open spec fn io_head(&self) -> Seq<char> {
        match self {
            StorageError::Io { operation, .. } => "could not "@ + operation@ + " configuration: "@,
            _ => Seq::empty(),
        }
    }

    /// The message of the error; that of an I/O error ends with the
    /// operating system's own description.
    pub fn to_string(&self) -> (s: String)
        ensures
            match self {
                StorageError::Io { operation, .. } => {
                    let head = "could not "@ + operation@ + " configuration: "@;
                    s@.len() >= head.len() && s@.subrange(0, head.len() as int) == head
                },
                StorageError::InvalidFormat { line: Some(n), message } => s@
                    == "invalid configuration on line "@ + decimal(n as nat) + ": "@ + message@,
                StorageError::InvalidFormat { line: None, message } => s@
                    == "invalid configuration: "@ + message@,
                StorageError::InvalidConfig { source } => s@
                    == "configuration validation failed: "@ + source.message(),
            },
    {
        let mut s = String::new();
        match self {
            StorageError::Io { operation, source } => {
                push_str(&mut s, "could not ");
                push_str(&mut s, operation);
                push_str(&mut s, " configuration: ");
                let ghost head = s@;
                let text = io_error_text(source);
                push_str(&mut s, text.as_str());
                assert(s@.subrange(0, head.len() as int) =~= head);
            },
            StorageError::InvalidFormat { line: Some(n), message } => {
                push_str(&mut s, "invalid configuration on line ");
                push_decimal(&mut s, *n as u64);
                push_str(&mut s, ": ");
                push_str(&mut s, message.as_str());
            },
            StorageError::InvalidFormat { line: None, message } => {
                push_str(&mut s, "invalid configuration: ");
                push_str(&mut s, message.as_str());
            },
            StorageError::InvalidConfig { source } => {
                push_str(&mut s, "configuration validation failed: ");
                let text = source.to_string();
                push_str(&mut s, text.as_str());
            },
        }
        s
    }
}

// ---------------------------------------------------------------------------
// Percent encoding
// ---------------------------------------------------------------------------
/// Whether a byte is written as itself.
pub open spec fn unreserved(b: u8) -> bool {
    (0x30 <= b <= 0x39) || (0x41 <= b <= 0x5A) || (0x61 <= b <= 0x7A) || b == 0x2D || b == 0x2E
        || b == 0x5F || b == 0x7E
}

/// The upper-case hexadecimal digit of `v`.
pub open spec fn hex_digit(v: u8) -> char {
    if v < 10 {
        (0x30 + v) as char
    } else {
        (0x41 + v - 10) as char
    }
}

/// The encoding of one byte.
pub open spec fn encode_byte(b: u8) -> Seq<char> {
    if unreserved(b) {
        seq![b as char]
    } else {
        seq!['%', hex_digit(b / 16), hex_digit(b % 16)]
    }
}

/// The encoding of a byte sequence.
pub open spec fn encode_bytes(b: Seq<u8>) -> Seq<char>
    decreases b.len(),
{
    if b.len() == 0 {
        Seq::empty()
    } else {
        encode_bytes(b.drop_last()) + encode_byte(b.last())
    }
}

/// The percent encoding of the UTF-8 bytes of `s`.
pub open spec fn percent_encode(s: Seq<char>) -> Seq<char> {
    encode_bytes(utf8_encode(s))
}

/// The value of a hexadecimal digit byte, either case.
pub open spec fn hex_value(b: u8) -> Option<u8> {
    if 0x30 <= b <= 0x39 {
        Some((b - 0x30) as u8)
    } else if 0x41 <= b <= 0x46 {
        Some((b - 0x41 + 10) as u8)
    } else if 0x61 <= b <= 0x66 {
        Some((b - 0x61 + 10) as u8)
    } else {
        None
    }
}

/// Undoes percent escapes in a byte sequence; other bytes are kept.
pub open spec fn unescape(b: Seq<u8>) -> Result<Seq<u8>, Seq<char>>
    decreases b.len(),
{
    if b.len() == 0 {
        Ok(Seq::empty())
    } else if b[0] == 0x25 {
        if 2 >= b.len() {
            Err("incomplete percent escape"@)
        } else {
            match (hex_value(b[1]), hex_value(b[2])) {
                (Some(hi), Some(lo)) => match unescape(b.skip(3)) {
                    Ok(rest) => Ok(seq![(hi * 16 + lo) as u8] + rest),
                    Err(m) => Err(m),
                },
                _ => Err("invalid percent escape"@),
            }
        }
    } else {
        match unescape(b.skip(1)) {
            Ok(rest) => Ok(seq![b[0]] + rest),
            Err(m) => Err(m),
        }
    }
}

/// The name that the encoded text `enc` stands for, or why it stands for none.
pub open spec fn percent_decode(enc: Seq<char>) -> Result<Seq<char>, Seq<char>> {
    match unescape(utf8_encode(enc)) {
        Err(m) => Err(m),
        Ok(bytes) => match utf8_decode(bytes) {
            Some(s) => Ok(s),
            None => Err("server name is not valid UTF-8"@),
        },
    }
}

/// The byte of an ASCII character.
pub open spec fn ascii_code(c: char) -> u8 {
    (c as u32) as u8
}

/// A character that encoded text may hold: ASCII, and no tab, line break or `=`.
pub open spec fn encoded_char(c: char) -> bool {
    (c as u32) < 128 && c != '\t' && c != '\n' && c != '\r' && c != '='
}

pub proof fn lemma_encode_bytes_concat(a: Seq<u8>, b: Seq<u8>)
    ensures
        encode_bytes(a + b) == encode_bytes(a) + encode_bytes(b),
    decreases b.len(),
{
    if b.len() == 0 {
        assert(a + b =~= a);
        assert(encode_bytes(a) + encode_bytes(b) =~= encode_bytes(a));
    } else {
        lemma_encode_bytes_concat(a, b.drop_last());
        assert((a + b).drop_last() =~= a + b.drop_last());
        assert((a + b).last() == b.last());
        assert(encode_bytes(a) + encode_bytes(b.drop_last()) + encode_byte(b.last()) =~= encode_bytes(
            a,
        ) + (encode_bytes(b.drop_last()) + encode_byte(b.last())));
    }
}

pub proof fn lemma_encoded_chars(b: Seq<u8>)
    ensures
        forall|i: int| 0 <= i < encode_bytes(b).len() ==> encoded_char(#[trigger] encode_bytes(b)[i]),
    decreases b.len(),
{
    if b.len() > 0 {
        lemma_encoded_chars(b.drop_last());
        let x = b.last();
        let e = encode_byte(x);
        assert forall|i: int| 0 <= i < e.len() implies encoded_char(#[trigger] e[i]) by {
            if unreserved(x) {
                assert(e[i] == x as char);
            } else {
                assert(hex_digit(x / 16) != '=' && hex_digit(x % 16) != '=');
            }
        }
        let prefix = encode_bytes(b.drop_last());
        assert forall|i: int| 0 <= i < encode_bytes(b).len() implies encoded_char(
            #[trigger] encode_bytes(b)[i],
        ) by {
            if i < prefix.len() {
                assert(encode_bytes(b)[i] == prefix[i]);
            } else {
                assert(encode_bytes(b)[i] == e[i - prefix.len()]);
            }
        }
    }
}

pub proof fn lemma_unescape_encoded(b: Seq<u8>)
    ensures
        unescape(encode_bytes(b).map_values(|c: char| ascii_code(c))) == Ok::<Seq<u8>, Seq<char>>(b),
    decreases b.len(),
{
    let f = |c: char| ascii_code(c);
    if b.len() == 0 {
        assert(encode_bytes(b).map_values(f) =~= Seq::<u8>::empty());
        assert(b =~= Seq::<u8>::empty());
    } else {
        let x = b[0];
        let rest = b.skip(1);
        assert(b =~= seq![x] + rest);
        lemma_encode_bytes_concat(seq![x], rest);
        assert(encode_bytes(seq![x]) == encode_bytes(Seq::<u8>::empty()) + encode_byte(x)) by {
            assert(seq![x].drop_last() =~= Seq::<u8>::empty());
        }
        assert(encode_bytes(seq![x]) =~= encode_byte(x));
        lemma_unescape_encoded(rest);
        let head = encode_byte(x).map_values(f);
        let tail = encode_bytes(rest).map_values(f);
        assert(encode_bytes(b).map_values(f) =~= head + tail);
        let all = head + tail;
        if unreserved(x) {
            assert(head =~= seq![x]);
            assert(all.skip(1) =~= tail);
            assert(all[0] == x);
        } else {
            let hi = x / 16;
            let lo = x % 16;
            assert(head =~= seq![0x25u8, ascii_code(hex_digit(hi)), ascii_code(hex_digit(lo))]);
            assert(hex_value(ascii_code(hex_digit(hi))) == Some(hi));
            assert(hex_value(ascii_code(hex_digit(lo))) == Some(lo));
            assert(all.skip(3) =~= tail);
            assert(all[0] == 0x25u8 && all[1] == ascii_code(hex_digit(hi)) && all[2] == ascii_code(
                hex_digit(lo),
            ));
            assert((hi * 16 + lo) as u8 == x);
        }
        assert(seq![x] + rest =~= b);
    }
}

/// Decoding what [`encode`] wrote gives the name back.
pub proof fn lemma_percent_round_trip(name: Seq<char>)
    ensures
        percent_decode(percent_encode(name)) == Ok::<Seq<char>, Seq<char>>(name),
        forall|i: int|
            0 <= i < percent_encode(name).len() ==> encoded_char(#[trigger] percent_encode(name)[i]),
{
    lemma_utf8_round_trip(name);
    let b = utf8_encode(name);
    let e = encode_bytes(b);
    lemma_encoded_chars(b);
    crate::text::lemma_utf8_ascii(e);
    assert(e.map_values(|c: char| (c as u32) as u8) =~= e.map_values(|c: char| ascii_code(c)));
    lemma_unescape_encoded(b);
}

fn hex_digit_exec(v: u8) -> (c: char)
    requires
        v < 16,
    ensures
        c == hex_digit(v),
{
    if v < 10 {
        (0x30u8 + v) as char
    } else {
        (0x41u8 + v - 10) as char
    }
}

fn is_unreserved(b: u8) -> (r: bool)
    ensures
        r == unreserved(b),
{
    (0x30 <= b && b <= 0x39) || (0x41 <= b && b <= 0x5A) || (0x61 <= b && b <= 0x7A) || b == 0x2D
        || b == 0x2E || b == 0x5F || b == 0x7E
}

/// Percent-encodes the UTF-8 bytes of `value`.
pub fn encode(value: &str) -> (s: String)
    ensures
        s@ == percent_encode(value@),
        percent_decode(s@) == Ok::<Seq<char>, Seq<char>>(value@),
{
    let bytes = utf8_bytes(value);
    proof {
        lemma_percent_round_trip(value@);
    }
    let mut out = String::new();
    let mut i: usize = 0;
    while i < bytes.len()
        invariant
            i <= bytes@.len(),
            bytes@ == utf8_encode(value@),
            out@ == encode_bytes(bytes@.take(i as int)),
        decreases bytes@.len() - i,
    {
        let b = bytes[i];
        if is_unreserved(b) {
            crate::text::push_char(&mut out, b as char);
        } else {
            crate::text::push_char(&mut out, '%');
            crate::text::push_char(&mut out, hex_digit_exec(b / 16));
            crate::text::push_char(&mut out, hex_digit_exec(b % 16));
        }
        proof {
            assert(bytes@.take(i + 1).drop_last() =~= bytes@.take(i as int));
            assert(out@ =~= encode_bytes(bytes@.take(i as int)) + encode_byte(b));
        }
        i += 1;
    }
    assert(bytes@.take(bytes@.len() as int) =~= bytes@);
    out
}

fn hex_value_exec(b: u8) -> (r: Option<u8>)
    ensures
        r == hex_value(b),
{
    if 0x30 <= b && b <= 0x39 {
        Some(b - 0x30)
    } else if 0x41 <= b && b <= 0x46 {
        Some(b - 0x41 + 10)
    } else if 0x61 <= b && b <= 0x66 {
        Some(b - 0x61 + 10)
    } else {
        None
    }
}

/// Decodes a percent-encoded name.
pub fn decode(value: &str) -> (r: Result<String, String>)
    ensures
        match percent_decode(value@) {
            Ok(s) => r matches Ok(x) && x@ == s,
            Err(m) => r matches Err(x) && x@ == m,
        },
{
    let bytes = utf8_bytes(value);
    let ghost all = bytes@;
    let mut decoded: Vec<u8> = Vec::new();
    let mut index: usize = 0;
    proof {
        assert(all.skip(0) =~= all);
        match unescape(all) {
            Ok(r) => assert(decoded@ + r =~= r),
            Err(_) => {},
        }
    }
    while index < bytes.len()
        invariant
            index <= bytes@.len(),
            all == bytes@,
            all == utf8_encode(value@),
            unescape(all) == match unescape(all.skip(index as int)) {
                Ok(rest) => Ok(decoded@ + rest),
                Err(m) => Err::<Seq<u8>, Seq<char>>(m),
            },
        decreases bytes@.len() - index,
    {
        let ghost rest = all.skip(index as int);
        if bytes[index] == 0x25 {
            if bytes.len() - index <= 2 {
                return Err(crate::text::string_from_str("incomplete percent escape"));
            }
            let high = match hex_value_exec(bytes[index + 1]) {
                Some(h) => h,
                None => { return Err(crate::text::string_from_str("invalid percent escape")) },
            };
            let low = match hex_value_exec(bytes[index + 2]) {
                Some(l) => l,
                None => { return Err(crate::text::string_from_str("invalid percent escape")) },
            };
            let v = high * 16 + low;
            proof {
                assert(rest.skip(3) =~= all.skip(index + 3));
                assert(rest[1] == all[index + 1] && rest[2] == all[index + 2]);
                match unescape(all.skip(index + 3)) {
                    Ok(tail) => {
                        assert(decoded@ + (seq![v] + tail) =~= decoded@.push(v) + tail);
                    },
                    Err(m) => {},
                }
            }
            decoded.push(v);
            index += 3;
        } else {
            let b = bytes[index];
            proof {
                assert(rest.skip(1) =~= all.skip(index + 1));
                match unescape(all.skip(index + 1)) {
                    Ok(tail) => {
                        assert(decoded@ + (seq![b] + tail) =~= decoded@.push(b) + tail);
                    },
                    Err(m) => {},
                }
            }
            decoded.push(b);
            index += 1;
        }
    }
    proof {
        assert(all.skip(index as int) =~= Seq::<u8>::empty());
        assert(decoded@ + Seq::<u8>::empty() =~= decoded@);
    }
    match string_from_utf8(decoded) {
        Some(s) => {
            proof {
                lemma_utf8_round_trip(s@);
            }
            Ok(s)
        },
        None => Err(crate::text::string_from_str("server name is not valid UTF-8")),
    }
}

// ---------------------------------------------------------------------------
// Writing
// ---------------------------------------------------------------------------
/// The text of `lines`, each ended by a newline.
pub open spec fn join_lines(lines: Seq<Seq<char>>) -> Seq<char>
    decreases lines.len(),
{
    if lines.len() == 0 {
        Seq::empty()
    } else {
        join_lines(lines.drop_last()) + lines.last() + "\n"@
    }
}

/// The record of one server.
pub open spec fn server_line(server: (Seq<char>, Seq<char>)) -> Seq<char> {
    "server="@ + percent_encode(server.0) + "\t"@ + server.1
}

/// The whole seconds of the polling interval of `c`.
pub open spec fn interval_secs(c: ConfigModel) -> nat {
    c.polling.interval_spec()@ / 1_000_000_000
}

/// The record of the active server.
pub open spec fn active_line(active: Option<usize>) -> Seq<char> {
    match active {
        Some(i) => "active_server="@ + decimal(i as nat),
        None => "active_server=none"@,
    }
}

/// The records that describe `c`, in the order they are written.
pub open spec fn config_lines(c: ConfigModel) -> Seq<Seq<char>> {
    seq![
        "# Master Time configuration"@,
        "version=1"@,
        "poll_interval_secs="@ + decimal(interval_secs(c)),
        active_line(c.active_server),
        "server_count="@ + decimal(c.servers.len()),
    ] + c.servers.map_values(|server: (Seq<char>, Seq<char>)| server_line(server))
}

fn push_line(out: &mut String, line: &String)
    ensures
        final(out)@ == old(out)@ + line@ + "\n"@,
{
    push_str(out, line.as_str());
    push_str(out, "\n");
}

/// The five header lines of the written form, each ended by a newline.
fn header_text(config: &AppConfig) -> (s: String)
    ensures
        s@ == join_lines(config_lines(config@).take(5)),
{
    let ghost lines = config_lines(config@);
    let mut output = String::new();
    let mut line = String::new();
    push_str(&mut line, "# Master Time configuration");
    push_line(&mut output, &line);
    let mut line = String::new();
    push_str(&mut line, "version=1");
    push_line(&mut output, &line);
    let mut line = String::new();
    push_str(&mut line, "poll_interval_secs=");
    push_decimal(&mut line, config.polling().interval().as_secs());
    push_line(&mut output, &line);
    let mut line = String::new();
    match config.active_server_index() {
        Some(index) => {
            push_str(&mut line, "active_server=");
            push_decimal(&mut line, index as u64);
        },
        None => push_str(&mut line, "active_server=none"),
    }
    push_line(&mut output, &line);
    let servers = config.servers();
    let mut line = String::new();
    push_str(&mut line, "server_count=");
    push_decimal(&mut line, servers.len() as u64);
    push_line(&mut output, &line);
    proof {
        reveal_with_fuel(join_lines, 6);
        assert(lines.take(5) =~= seq![lines[0], lines[1], lines[2], lines[3], lines[4]]);
        assert(lines.take(5).drop_last() =~= seq![lines[0], lines[1], lines[2], lines[3]]);
        assert(lines.take(5).drop_last().drop_last() =~= seq![lines[0], lines[1], lines[2]]);
        assert(lines.take(5).drop_last().drop_last().drop_last() =~= seq![lines[0], lines[1]]);
        assert(lines.take(5).drop_last().drop_last().drop_last().drop_last() =~= seq![lines[0]]);
    }
    output
}

/// The text of `config` in the storage format.
///
/// Reading the text back gives the same configuration, with the polling
/// interval kept to the whole second, whenever the configuration is
/// storable: valid profiles, a valid selection and a valid interval.
pub fn serialize(config: &AppConfig) -> (s: String)
    ensures
        s@ == join_lines(config_lines(config@)),
        storable(config@) ==> parse_spec(s@) == Ok::<
            (Seq<(Seq<char>, Seq<char>)>, Option<usize>, nat),
            ParseFault,
        >((config@.servers, config@.active_server, interval_secs(config@))),
{
    let ghost lines = config_lines(config@);
    let mut output = header_text(config);
    let servers = config.servers();
    let mut i: usize = 0;
    while i < servers.len()
        invariant
            i <= servers@.len(),
            servers@.map_values(|p: ServerProfile| p@) == config@.servers,
            lines == config_lines(config@),
            output@ == join_lines(lines.take(5 + i)),
            forall|j: int|
                0 <= j < i ==> percent_decode(percent_encode(#[trigger] config@.servers[j].0))
                    == Ok::<Seq<char>, Seq<char>>(config@.servers[j].0),
        decreases servers@.len() - i,
    {
        let mut line = String::new();
        push_str(&mut line, "server=");
        let encoded = encode(servers[i].name());
        push_str(&mut line, encoded.as_str());
        push_str(&mut line, "\t");
        push_str(&mut line, servers[i].hostname());
        proof {
            assert(config@.servers[i as int] == servers@[i as int]@);
            assert(line@ =~= server_line(config@.servers[i as int]));
            assert(lines.take(5 + i + 1).drop_last() =~= lines.take(5 + i));
            assert(lines[5 + i] == server_line(config@.servers[i as int]));
        }
        push_line(&mut output, &line);
        i += 1;
    }
    assert(lines.take(5 + servers@.len() as int) =~= lines);
    proof {
        if storable(config@) {
            lemma_saved_configuration_reads_back(config@);
        }
    }
    output
}

// ---------------------------------------------------------------------------
// Reading
// ---------------------------------------------------------------------------
/// The lines of `s`, as `str::lines` splits them: at each `\n`, with no
/// empty piece after a final `\n`.
pub open spec fn split_lines(s: Seq<char>) -> Seq<Seq<char>>
    decreases s.len(),
{
    match first_index_of(s, '\n') {
        None => if s.len() == 0 {
            Seq::empty()
        } else {
            seq![s]
        },
        Some(k) => if 0 <= k < s.len() {
            seq![s.take(k)] + split_lines(s.skip(k + 1))
        } else {
            Seq::empty()
        },
    }
}

/// `line` without its trailing carriage returns.
pub open spec fn strip_cr(line: Seq<char>) -> Seq<char>
    decreases line.len(),
{
    if line.len() > 0 && line.last() == '\r' {
        strip_cr(line.drop_last())
    } else {
        line
    }
}

/// Why reading a configuration failed, in the terms of [`StorageError`]: a
/// format fault with its line number (`None` for the file as a whole) and
/// message, or a configuration value that was refused.
pub enum ParseFault {
    Format(Option<usize>, Seq<char>),
    Config(ConfigError),
}

/// The raw values of the records seen so far, and the servers read.
pub struct Fields {
    pub version: Option<Seq<char>>,
    pub interval: Option<Seq<char>>,
    pub active: Option<Seq<char>>,
    pub count: Option<Seq<char>>,
    pub servers: Seq<(Seq<char>, Seq<char>)>,
}

/// A fault on line `n`.
pub open spec fn fault_at(n: nat, message: Seq<char>) -> ParseFault {
    ParseFault::Format(if n == 0 { None } else { Some(n as usize) }, message)
}

/// A record `name` holding `value`, where `slot` holds any earlier value.
pub open spec fn set_once(slot: Option<Seq<char>>, value: Seq<char>, n: nat, name: Seq<char>) -> Result<
    Seq<char>,
    ParseFault,
> {
    if slot is Some {
        Err(fault_at(n, "duplicate "@ + name))
    } else {
        Ok(value)
    }
}

/// Whether `s` contains `c`.
pub open spec fn has_char(s: Seq<char>, c: char) -> bool {
    exists|i: int| 0 <= i < s.len() && s[i] == c
}

/// A server record with the value `value`, on line `n`.
pub open spec fn server_record(f: Fields, value: Seq<char>, n: nat) -> Result<Fields, ParseFault> {
    match first_index_of(value, '\t') {
        None => Err(fault_at(n, "server must contain encoded name and hostname"@)),
        Some(t) => {
            let host = value.skip(t + 1);
            if has_char(host, '\t') || host.len() == 0 {
                Err(fault_at(n, "server hostname is malformed"@))
            } else {
                match percent_decode(value.take(t)) {
                    Err(m) => Err(fault_at(n, m)),
                    Ok(name) => match profile_error(name, host) {
                        Some(e) => Err(ParseFault::Config(e)),
                        None => Ok(Fields { servers: f.servers.push((name, host)), ..f }),
                    },
                }
            }
        },
    }
}

/// The fields after the record `line`, which is line `n` of the file.
pub open spec fn read_record(f: Fields, line: Seq<char>, n: nat) -> Result<Fields, ParseFault> {
    if line.len() == 0 || line[0] == '#' {
        Ok(f)
    } else {
        match first_index_of(line, '=') {
            None => Err(fault_at(n, "expected key=value"@)),
            Some(k) => {
                let key = line.take(k);
                let value = line.skip(k + 1);
                if key == "version"@ {
                    match set_once(f.version, value, n, "version"@) {
                        Ok(v) => Ok(Fields { version: Some(v), ..f }),
                        Err(e) => Err(e),
                    }
                } else if key == "poll_interval_secs"@ {
                    match set_once(f.interval, value, n, "poll_interval_secs"@) {
                        Ok(v) => Ok(Fields { interval: Some(v), ..f }),
                        Err(e) => Err(e),
                    }
                } else if key == "active_server"@ {
                    match set_once(f.active, value, n, "active_server"@) {
                        Ok(v) => Ok(Fields { active: Some(v), ..f }),
                        Err(e) => Err(e),
                    }
                } else if key == "server_count"@ {
                    match set_once(f.count, value, n, "server_count"@) {
                        Ok(v) => Ok(Fields { count: Some(v), ..f }),
                        Err(e) => Err(e),
                    }
                } else if key == "server"@ {
                    server_record(f, value, n)
                } else {
                    Err(fault_at(n, "unknown key"@))
                }
            },
        }
    }
}

/// The fields after the lines from index `i` on.
pub open spec fn read_lines(lines: Seq<Seq<char>>, i: nat, f: Fields) -> Result<Fields, ParseFault>
    decreases lines.len() - i,
{
    if i >= lines.len() {
        Ok(f)
    } else {
        match read_record(f, strip_cr(lines[i as int]), i + 1) {
            Err(e) => Err(e),
            Ok(next) => read_lines(lines, i + 1, next),
        }
    }
}

/// What the complete records give: the servers, the selection and the
/// polling interval in whole seconds; or the first fault, in the order the
/// fields are checked.
pub open spec fn finish(f: Fields) -> Result<
    (Seq<(Seq<char>, Seq<char>)>, Option<usize>, nat),
    ParseFault,
> {
    match (f.version, f.interval, f.active, f.count) {
        (None, _, _, _) => Err(fault_at(0, "missing version"@)),
        (Some(v), _, _, _) if v != "1"@ => Err(fault_at(0, "unsupported format version"@)),
        (_, None, _, _) => Err(fault_at(0, "missing poll_interval_secs"@)),
        (_, Some(iv), a, c) => match parse_unsigned_spec(iv, u64::MAX as nat) {
            None => Err(fault_at(0, "poll interval is not an unsigned integer"@)),
            Some(secs) => match a {
                None => Err(fault_at(0, "missing active_server"@)),
                Some(av) => {
                    let active: Option<Option<usize>> = if av == "none"@ {
                        Some(None)
                    } else {
                        match parse_unsigned_spec(av, usize::MAX as nat) {
                            Some(i) => Some(Some(i as usize)),
                            None => None,
                        }
                    };
                    match active {
                        None => Err(fault_at(0, "active server index is not a valid integer"@)),
                        Some(active) => match c {
                            None => Err(fault_at(0, "missing server_count"@)),
                            Some(cv) => match parse_unsigned_spec(cv, usize::MAX as nat) {
                                None => Err(fault_at(0, "server count is not a valid integer"@)),
                                Some(expected) => if expected != f.servers.len() {
                                    Err(fault_at(0, "server_count does not match server records"@))
                                } else {
                                    match interval_error(Duration::spec_from_secs(secs as u64)) {
                                        Some(e) => Err(ParseFault::Config(e)),
                                        None => match active {
                                            Some(i) => if i >= f.servers.len() {
                                                Err(
                                                    ParseFault::Config(
                                                        ConfigError::ActiveServerOutOfBounds {
                                                            index: i,
                                                            server_count: f.servers.len() as usize,
                                                        },
                                                    ),
                                                )
                                            } else {
                                                Ok((f.servers, active, secs))
                                            },
                                            None => Ok((f.servers, active, secs)),
                                        },
                                    }
                                },
                            },
                        },
                    }
                },
            },
        },
    }
}

/// No record seen yet.
pub open spec fn no_fields() -> Fields {
    Fields { version: None, interval: None, active: None, count: None, servers: Seq::empty() }
}

/// What reading the text `s` gives.
pub open spec fn parse_spec(s: Seq<char>) -> Result<
    (Seq<(Seq<char>, Seq<char>)>, Option<usize>, nat),
    ParseFault,
> {
    match read_lines(split_lines(s), 0, no_fields()) {
        Err(e) => Err(e),
        Ok(f) => finish(f),
    }
}

pub(crate) fn find_char(s: &Vec<char>, c: char) -> (r: Option<usize>)
    ensures
        r matches Some(k) ==> first_index_of(s@, c) == Some(k as int) && k < s@.len(),
        r is None ==> first_index_of(s@, c) is None,
{
    proof {
        crate::config::lemma_first_index_in_range(s@, c);
    }
    let mut i: usize = 0;
    while i < s.len()
        invariant
            i <= s@.len(),
            forall|j: int| 0 <= j < i ==> s@[j] != c,
        decreases s@.len() - i,
    {
        if s[i] == c {
            proof {
                crate::config::lemma_first_index_unique(s@, c, i as int);
            }
            return Some(i);
        }
        i += 1;
    }
    proof {
        if first_index_of(s@, c) is Some {
            let k = first_index_of(s@, c)->0;
            assert(s@[k] == c);
        }
    }
    None
}

pub(crate) fn slice_of(s: &Vec<char>, from: usize, to: usize) -> (r: Vec<char>)
    requires
        from <= to <= s@.len(),
    ensures
        r@ == s@.subrange(from as int, to as int),
{
    let mut r: Vec<char> = Vec::new();
    let mut i = from;
    while i < to
        invariant
            from <= i <= to <= s@.len(),
            r@ == s@.subrange(from as int, i as int),
        decreases to - i,
    {
        r.push(s[i]);
        i += 1;
    }
    r
}

pub(crate) fn split_lines_exec(s: &Vec<char>) -> (r: Vec<Vec<char>>)
    ensures
        r@.map_values(|v: Vec<char>| v@) == split_lines(s@),
{
    let mut lines: Vec<Vec<char>> = Vec::new();
    let mut start: usize = 0;
    assert(s@.skip(0) =~= s@);
    while start < s.len()
        invariant
            start <= s@.len(),
            split_lines(s@) == lines@.map_values(|v: Vec<char>| v@) + split_lines(s@.skip(start as int)),
        decreases s@.len() - start,
    {
        let rest = slice_of(s, start, s.len());
        assert(rest@ =~= s@.skip(start as int));
        proof {
            crate::config::lemma_first_index_in_range(rest@, '\n');
        }
        let ghost before = lines@;
        match find_char(&rest, '\n') {
            Some(k) => {
                let line = slice_of(&rest, 0, k);
                proof {
                    assert(line@ =~= rest@.take(k as int));
                    assert(rest@.skip(k + 1) =~= s@.skip(start + k + 1));
                }
                lines.push(line);
                proof {
                    assert(lines@.map_values(|v: Vec<char>| v@) =~= before.map_values(
                        |v: Vec<char>| v@,
                    ).push(rest@.take(k as int)));
                    assert(split_lines(rest@) == seq![rest@.take(k as int)] + split_lines(
                        rest@.skip(k + 1),
                    ));
                    assert(before.map_values(|v: Vec<char>| v@) + split_lines(rest@) =~= lines@.map_values(
                        |v: Vec<char>| v@,
                    ) + split_lines(rest@.skip(k + 1)));
                }
                start = start + k + 1;
            },
            None => {
                proof {
                    assert(rest@.len() > 0);
                    assert(split_lines(rest@) == seq![rest@]);
                }
                lines.push(rest);
                proof {
                    assert(lines@.map_values(|v: Vec<char>| v@) =~= before.map_values(
                        |v: Vec<char>| v@,
                    ).push(rest@));
                    assert(s@.skip(s@.len() as int) =~= Seq::<char>::empty());
                    assert(split_lines(Seq::<char>::empty()) =~= Seq::<Seq<char>>::empty());
                    assert(lines@.map_values(|v: Vec<char>| v@) + Seq::<Seq<char>>::empty() =~= lines@.map_values(
                        |v: Vec<char>| v@,
                    ));
                }
                start = s.len();
            },
        }
    }
    proof {
        assert(s@.skip(start as int) =~= Seq::<char>::empty());
        assert(split_lines(Seq::<char>::empty()) =~= Seq::<Seq<char>>::empty());
        assert(lines@.map_values(|v: Vec<char>| v@) + Seq::<Seq<char>>::empty() =~= lines@.map_values(
            |v: Vec<char>| v@,
        ));
    }
    lines
}

fn strip_cr_exec(line: &Vec<char>) -> (r: Vec<char>)
    ensures
        r@ == strip_cr(line@),
{
    let mut end = line.len();
    assert(line@.take(end as int) =~= line@);
    while end > 0 && line[end - 1] == '\r'
        invariant
            end <= line@.len(),
            strip_cr(line@) == strip_cr(line@.take(end as int)),
        decreases end,
    {
        proof {
            assert(line@.take(end as int).drop_last() =~= line@.take(end - 1));
        }
        end -= 1;
    }
    proof {
        assert(line@.take(line@.len() as int) =~= line@);
    }
    let r = slice_of(line, 0, end);
    assert(r@ =~= line@.take(end as int));
    r
}

fn format_error(line: usize, message: &str) -> (e: StorageError)
    ensures
        e matches StorageError::InvalidFormat { line: l, message: m } && (if line == 0 {
            l is None
        } else {
            l == Some(line)
        }) && m@ == message@,
{
    StorageError::InvalidFormat {
        line: if line == 0 {
            None
        } else {
            Some(line)
        },
        message: crate::text::string_from_str(message),
    }
}

/// `e` is the storage error that the fault `f` describes.
pub open spec fn describes(e: StorageError, f: ParseFault) -> bool {
    match f {
        ParseFault::Format(l, m) => e matches StorageError::InvalidFormat { line, message } && line
            == l && message@ == m,
        ParseFault::Config(c) => e matches StorageError::InvalidConfig { source } && source == c,
    }
}

/// The exec form of the fields read so far.
struct Slots {
    version: Option<Vec<char>>,
    interval: Option<Vec<char>>,
    active: Option<Vec<char>>,
    count: Option<Vec<char>>,
    servers: Vec<ServerProfile>,
}

spec fn opt_view(o: Option<Vec<char>>) -> Option<Seq<char>> {
    match o {
        Some(v) => Some(v@),
        None => None,
    }
}

spec fn slots_model(s: Slots) -> Fields {
    Fields {
        version: opt_view(s.version),
        interval: opt_view(s.interval),
        active: opt_view(s.active),
        count: opt_view(s.count),
        servers: s.servers@.map_values(|p: ServerProfile| p@),
    }
}

fn duplicate(n: usize, name: &str) -> (e: StorageError)
    requires
        n > 0,
    ensures
        describes(e, fault_at(n as nat, "duplicate "@ + name@)),
{
    let mut message = String::new();
    push_str(&mut message, "duplicate ");
    push_str(&mut message, name);
    StorageError::InvalidFormat { line: Some(n), message }
}

fn read_server(slots: &mut Slots, value: &Vec<char>, n: usize) -> (r: Result<(), StorageError>)
    requires
        n > 0,
    ensures
        match server_record(slots_model(*old(slots)), value@, n as nat) {
            Ok(f) => r is Ok && slots_model(*final(slots)) == f,
            Err(e) => r matches Err(x) && describes(x, e),
        },
{
    let t = match find_char(value, '\t') {
        Some(t) => t,
        None => { return Err(format_error(n, "server must contain encoded name and hostname")) },
    };
    let vlen = value.len();
    let encoded = slice_of(value, 0, t);
    let host = slice_of(value, t + 1, vlen);
    proof {
        assert(encoded@ =~= value@.take(t as int));
        assert(host@ =~= value@.skip(t + 1));
    }
    let tab = find_char(&host, '\t');
    proof {
        crate::config::lemma_first_index_in_range(host@, '\t');
    }
    if tab.is_some() || host.len() == 0 {
        return Err(format_error(n, "server hostname is malformed"));
    }
    let encoded_text = string_from_chars(encoded.as_slice());
    let name = match decode(encoded_text.as_str()) {
        Ok(name) => name,
        Err(message) => { return Err(format_error(n, message.as_str())) },
    };
    let host_text = string_from_chars(host.as_slice());
    let profile = match ServerProfile::new(name.as_str(), host_text.as_str()) {
        Ok(p) => p,
        Err(e) => { return Err(StorageError::InvalidConfig { source: e }) },
    };
    let ghost before = slots.servers@;
    slots.servers.push(profile);
    proof {
        assert(slots.servers@.map_values(|p: ServerProfile| p@) =~= before.map_values(
            |p: ServerProfile| p@,
        ).push((name@, host@)));
    }
    Ok(())
}

fn key_is(key: &Vec<char>, word: &str) -> (b: bool)
    ensures
        b == (key@ == word@),
{
    let w = chars_of(word);
    crate::text::chars_eq(key.as_slice(), w.as_slice())
}

fn read_record_exec(slots: &mut Slots, line: &Vec<char>, n: usize) -> (r: Result<(), StorageError>)
    requires
        n > 0,
    ensures
        match read_record(slots_model(*old(slots)), line@, n as nat) {
            Ok(f) => r is Ok && slots_model(*final(slots)) == f,
            Err(e) => r matches Err(x) && describes(x, e),
        },
{
    if line.len() == 0 || line[0] == '#' {
        return Ok(());
    }
    let k = match find_char(line, '=') {
        Some(k) => k,
        None => { return Err(format_error(n, "expected key=value")) },
    };
    let key = slice_of(line, 0, k);
    let value = slice_of(line, k + 1, line.len());
    proof {
        assert(key@ =~= line@.take(k as int));
        assert(value@ =~= line@.skip(k + 1));
    }
    if key_is(&key, "version") {
        if slots.version.is_some() {
            return Err(duplicate(n, "version"));
        }
        slots.version = Some(value);
        Ok(())
    } else if key_is(&key, "poll_interval_secs") {
        if slots.interval.is_some() {
            return Err(duplicate(n, "poll_interval_secs"));
        }
        slots.interval = Some(value);
        Ok(())
    } else if key_is(&key, "active_server") {
        if slots.active.is_some() {
            return Err(duplicate(n, "active_server"));
        }
        slots.active = Some(value);
        Ok(())
    } else if key_is(&key, "server_count") {
        if slots.count.is_some() {
            return Err(duplicate(n, "server_count"));
        }
        slots.count = Some(value);
        Ok(())
    } else if key_is(&key, "server") {
        read_server(slots, &value, n)
    } else {
        Err(format_error(n, "unknown key"))
    }
}

/// Whether the characters of `v` spell `word`.
fn is_word(v: &Vec<char>, word: &str) -> (b: bool)
    ensures
        b == (v@ == word@),
{
    key_is(v, word)
}

/// Reads and validates a configuration from the text `contents`.
pub fn parse(contents: &str) -> (r: Result<AppConfig, StorageError>)
    ensures
        match parse_spec(contents@) {
            Ok((servers, active, secs)) => r matches Ok(c) && c@.servers == servers
                && c@.active_server == active && c@.polling.interval_spec()
                == Duration::spec_from_secs(secs as u64),
            Err(e) => r matches Err(x) && describes(x, e),
        },
{
    let chars = chars_of(contents);
    let lines = split_lines_exec(&chars);
    let ghost all = split_lines(contents@);
    let mut slots = Slots {
        version: None,
        interval: None,
        active: None,
        count: None,
        servers: Vec::new(),
    };
    proof {
        assert(slots_model(slots) == no_fields()) by {
            assert(slots.servers@.map_values(|p: ServerProfile| p@) =~= Seq::<
                (Seq<char>, Seq<char>),
            >::empty());
        }
    }
    let mut i: usize = 0;
    while i < lines.len()
        invariant
            i <= lines@.len(),
            all == lines@.map_values(|v: Vec<char>| v@),
            all == split_lines(contents@),
            read_lines(all, 0, no_fields()) == read_lines(all, i as nat, slots_model(slots)),
        decreases lines@.len() - i,
    {
        let line = strip_cr_exec(&lines[i]);
        assert(lines@[i as int]@ == all[i as int]);
        match read_record_exec(&mut slots, &line, i + 1) {
            Ok(()) => {},
            Err(e) => { return Err(e) },
        }
        i += 1;
    }
    let ghost fields = slots_model(slots);
    let version = match slots.version {
        Some(v) => v,
        None => { return Err(format_error(0, "missing version")) },
    };
    if !is_word(&version, "1") {
        return Err(format_error(0, "unsupported format version"));
    }
    let interval_text = match slots.interval {
        Some(v) => v,
        None => { return Err(format_error(0, "missing poll_interval_secs")) },
    };
    let secs = match parse_unsigned(interval_text.as_slice(), u64::MAX) {
        Some(v) => v,
        None => { return Err(format_error(0, "poll interval is not an unsigned integer")) },
    };
    let active_text = match slots.active {
        Some(v) => v,
        None => { return Err(format_error(0, "missing active_server")) },
    };
    let active: Option<usize> = if is_word(&active_text, "none") {
        None
    } else {
        match parse_unsigned(active_text.as_slice(), usize::MAX as u64) {
            Some(v) => Some(v as usize),
            None => {
                return Err(format_error(0, "active server index is not a valid integer"));
            },
        }
    };
    let count_text = match slots.count {
        Some(v) => v,
        None => { return Err(format_error(0, "missing server_count")) },
    };
    let expected = match parse_unsigned(count_text.as_slice(), usize::MAX as u64) {
        Some(v) => v as usize,
        None => { return Err(format_error(0, "server count is not a valid integer")) },
    };
    let servers = slots.servers;
    if expected != servers.len() {
        return Err(format_error(0, "server_count does not match server records"));
    }
    let polling = match PollingPreferences::new(Duration::from_secs(secs)) {
        Ok(p) => p,
        Err(e) => { return Err(StorageError::InvalidConfig { source: e }) },
    };
    match AppConfig::new(servers, active, polling) {
        Ok(c) => Ok(c),
        Err(e) => Err(StorageError::InvalidConfig { source: e }),
    }
}

// ---------------------------------------------------------------------------
// Reading back what was written
// ---------------------------------------------------------------------------
/// Whether `l` holds no line break.
pub open spec fn one_line(l: Seq<char>) -> bool {
    forall|i: int| 0 <= i < l.len() ==> l[i] != '\n'
}

proof fn lemma_join_front(a: Seq<char>, rest: Seq<Seq<char>>)
    ensures
        join_lines(seq![a] + rest) == a + "\n"@ + join_lines(rest),
    decreases rest.len(),
{
    if rest.len() == 0 {
        assert(seq![a] + rest =~= seq![a]);
        assert(seq![a].drop_last() =~= Seq::<Seq<char>>::empty());
        assert(join_lines(seq![a]) == join_lines(Seq::<Seq<char>>::empty()) + a + "\n"@);
        assert(Seq::<char>::empty() + a + "\n"@ =~= a + "\n"@ + Seq::<char>::empty());
    } else {
        lemma_join_front(a, rest.drop_last());
        assert((seq![a] + rest).drop_last() =~= seq![a] + rest.drop_last());
        assert((seq![a] + rest).last() == rest.last());
        assert(a + "\n"@ + join_lines(rest.drop_last()) + rest.last() + "\n"@ =~= a + "\n"@ + (
        join_lines(rest.drop_last()) + rest.last() + "\n"@));
    }
}

proof fn lemma_split_join(ls: Seq<Seq<char>>)
    requires
        forall|j: int| 0 <= j < ls.len() ==> one_line(#[trigger] ls[j]),
    ensures
        split_lines(join_lines(ls)) == ls,
    decreases ls.len(),
{
    if ls.len() == 0 {
        assert(split_lines(Seq::<char>::empty()) =~= Seq::<Seq<char>>::empty());
    } else {
        let a = ls[0];
        let rest = ls.skip(1);
        assert(ls =~= seq![a] + rest);
        lemma_join_front(a, rest);
        let t = join_lines(rest);
        let s = a + "\n"@ + t;
        reveal_strlit("\n");
        assert(one_line(a));
        assert(s[a.len() as int] == '\n');
        assert forall|j: int| 0 <= j < a.len() implies s[j] != '\n' by {
            assert(s[j] == a[j]);
        }
        crate::config::lemma_first_index_unique(s, '\n', a.len() as int);
        assert(s.take(a.len() as int) =~= a);
        assert(s.skip(a.len() as int + 1) =~= t);
        assert forall|j: int| 0 <= j < rest.len() implies one_line(#[trigger] rest[j]) by {
            assert(rest[j] == ls[j + 1]);
        }
        lemma_split_join(rest);
    }
}

proof fn lemma_record(key: Seq<char>, value: Seq<char>)
    requires
        forall|i: int| 0 <= i < key.len() ==> key[i] != '=',
    ensures
        ({
            let l = key + "="@ + value;
            &&& first_index_of(l, '=') == Some(key.len() as int)
            &&& l.take(key.len() as int) == key
            &&& l.skip(key.len() as int + 1) == value
        }),
{
    reveal_strlit("=");
    let l = key + "="@ + value;
    assert(l[key.len() as int] == '=');
    assert forall|j: int| 0 <= j < key.len() implies l[j] != '=' by {
        assert(l[j] == key[j]);
    }
    crate::config::lemma_first_index_unique(l, '=', key.len() as int);
    assert(l.take(key.len() as int) =~= key);
    assert(l.skip(key.len() as int + 1) =~= value);
}

proof fn lemma_strip_kept(l: Seq<char>)
    requires
        l.len() > 0,
        l.last() != '\r',
    ensures
        strip_cr(l) == l,
{
}

/// Facts about a line `prefix + digits` that ends in decimal digits.
proof fn lemma_digits_line(prefix: Seq<char>, n: nat)
    requires
        one_line(prefix),
    ensures
        one_line(prefix + decimal(n)),
        strip_cr(prefix + decimal(n)) == prefix + decimal(n),
        forall|i: int| 0 <= i < decimal(n).len() ==> decimal(n)[i] != '=',
{
    crate::text::lemma_decimal_parses(n, n);
    let l = prefix + decimal(n);
    assert forall|i: int| 0 <= i < l.len() implies l[i] != '\n' by {
        if i >= prefix.len() {
            assert(l[i] == decimal(n)[i - prefix.len()]);
        }
    }
    assert(l.last() == decimal(n).last());
    lemma_strip_kept(l);
}

/// The record of a valid server, encoded as a decodable name.
proof fn lemma_server_line(name: Seq<char>, host: Seq<char>)
    requires
        profile_error(name, host) is None,
        percent_decode(percent_encode(name)) == Ok::<Seq<char>, Seq<char>>(name),
    ensures
        one_line(server_line((name, host))),
        strip_cr(server_line((name, host))) == server_line((name, host)),
        forall|f: Fields, n: nat|
            read_record(f, #[trigger] server_line((name, host)), n) == Ok::<Fields, ParseFault>(
                Fields { servers: f.servers.push((name, host)), ..f },
            ),
{
    reveal_strlit("server=");
    reveal_strlit("server");
    reveal_strlit("=");
    reveal_strlit("\t");
    reveal_strlit("version");
    reveal_strlit("poll_interval_secs");
    reveal_strlit("active_server");
    reveal_strlit("server_count");
    let e = percent_encode(name);
    lemma_encoded_chars(utf8_encode(name));
    crate::config::lemma_valid_hostname_chars(host);
    let value = e + "\t"@ + host;
    let line = server_line((name, host));
    assert(line =~= "server"@ + "="@ + value);
    lemma_record("server"@, value);
    assert forall|i: int| 0 <= i < line.len() implies line[i] != '\n' by {
        if i >= 7 && i < 7 + e.len() {
            assert(line[i] == e[i - 7]);
        } else if i > 7 + e.len() {
            assert(line[i] == host[i - 8 - e.len()]);
        }
    }
    assert(line.last() == host.last());
    lemma_strip_kept(line);
    assert(value[e.len() as int] == '\t');
    assert forall|j: int| 0 <= j < e.len() implies value[j] != '\t' by {
        assert(value[j] == e[j]);
    }
    crate::config::lemma_first_index_unique(value, '\t', e.len() as int);
    assert(value.take(e.len() as int) =~= e);
    assert(value.skip(e.len() as int + 1) =~= host);
    assert(!has_char(host, '\t'));
    assert forall|f: Fields, n: nat|
        read_record(f, #[trigger] server_line((name, host)), n) == Ok::<Fields, ParseFault>(
            Fields { servers: f.servers.push((name, host)), ..f },
        ) by {
        assert(line[0] == 's');
    }
}

proof fn lemma_read_servers(lines: Seq<Seq<char>>, base: Fields, servers: Seq<(Seq<char>, Seq<char>)>, j: nat)
    requires
        lines.len() == 5 + servers.len(),
        j <= servers.len(),
        forall|i: int|
            0 <= i < servers.len() ==> lines[5 + i] == server_line(#[trigger] servers[i]),
        forall|i: int|
            0 <= i < servers.len() ==> profile_error(#[trigger] servers[i].0, servers[i].1) is None,
        forall|i: int|
            0 <= i < servers.len() ==> percent_decode(percent_encode(#[trigger] servers[i].0))
                == Ok::<Seq<char>, Seq<char>>(servers[i].0),
    ensures
        read_lines(lines, 5 + j, Fields { servers: servers.take(j as int), ..base }) == Ok::<
            Fields,
            ParseFault,
        >(Fields { servers: servers, ..base }),
    decreases servers.len() - j,
{
    if j == servers.len() {
        assert(servers.take(j as int) =~= servers);
    } else {
        let s = servers[j as int];
        lemma_server_line(s.0, s.1);
        assert(s == (s.0, s.1));
        assert(lines[5 + j as int] == server_line(s));
        let f = Fields { servers: servers.take(j as int), ..base };
        assert(servers.take(j as int).push(s) =~= servers.take(j as int + 1));
        lemma_read_servers(lines, base, servers, j + 1);
    }
}

/// The raw value of the active server record.
pub open spec fn active_value(active: Option<usize>) -> Seq<char> {
    match active {
        Some(i) => decimal(i as nat),
        None => "none"@,
    }
}

/// The fields after the five header records of `c`.
pub open spec fn header_fields(c: ConfigModel) -> Fields {
    Fields {
        version: Some("1"@),
        interval: Some(decimal(interval_secs(c))),
        active: Some(active_value(c.active_server)),
        count: Some(decimal(c.servers.len())),
        servers: Seq::empty(),
    }
}

proof fn lemma_lines_split(c: ConfigModel)
    requires
        storable(c),
        forall|i: int|
            0 <= i < c.servers.len() ==> percent_decode(percent_encode(#[trigger] c.servers[i].0))
                == Ok::<Seq<char>, Seq<char>>(c.servers[i].0),
    ensures
        split_lines(join_lines(config_lines(c))) == config_lines(c),
        forall|j: int|
            0 <= j < config_lines(c).len() ==> strip_cr(#[trigger] config_lines(c)[j])
                == config_lines(c)[j],
{
    reveal_strlit("# Master Time configuration");
    reveal_strlit("version=1");
    reveal_strlit("poll_interval_secs=");
    reveal_strlit("active_server=");
    reveal_strlit("active_server=none");
    reveal_strlit("server_count=");
    let lines = config_lines(c);
    let n = c.servers.len();
    lemma_digits_line("poll_interval_secs="@, interval_secs(c));
    lemma_digits_line("server_count="@, n);
    match c.active_server {
        Some(i) => lemma_digits_line("active_server="@, i as nat),
        None => {
            lemma_strip_kept("active_server=none"@);
        },
    }
    lemma_strip_kept("# Master Time configuration"@);
    lemma_strip_kept("version=1"@);
    assert forall|j: int| 0 <= j < lines.len() implies one_line(#[trigger] lines[j]) && strip_cr(
        lines[j],
    ) == lines[j] by {
        if j >= 5 {
            let s = c.servers[j - 5];
            lemma_server_line(s.0, s.1);
            assert(s == (s.0, s.1));
        }
    }
    lemma_split_join(lines);
}

proof fn lemma_header_reads(c: ConfigModel)
    requires
        forall|j: int|
            0 <= j < config_lines(c).len() ==> strip_cr(#[trigger] config_lines(c)[j])
                == config_lines(c)[j],
    ensures
        read_lines(config_lines(c), 0, no_fields()) == read_lines(
            config_lines(c),
            5,
            header_fields(c),
        ),
{
    reveal_strlit("# Master Time configuration");
    reveal_strlit("version=1");
    reveal_strlit("version");
    reveal_strlit("1");
    reveal_strlit("=");
    reveal_strlit("poll_interval_secs=");
    reveal_strlit("poll_interval_secs");
    reveal_strlit("active_server=");
    reveal_strlit("active_server=none");
    reveal_strlit("active_server");
    reveal_strlit("none");
    reveal_strlit("server_count=");
    reveal_strlit("server_count");
    reveal_strlit("server");
    let lines = config_lines(c);
    let secs = interval_secs(c);
    let n = c.servers.len();
    crate::text::lemma_decimal_parses(secs, secs);
    crate::text::lemma_decimal_parses(n, n);
    let av = active_value(c.active_server);
    match c.active_server {
        Some(i) => crate::text::lemma_decimal_parses(i as nat, i as nat),
        None => {},
    }
    assert forall|i: int| 0 <= i < av.len() implies av[i] != '=' by {}
    assert forall|i: int| 0 <= i < decimal(secs).len() implies decimal(secs)[i] != '=' by {}
    assert forall|i: int| 0 <= i < decimal(n).len() implies decimal(n)[i] != '=' by {}
    let f0 = no_fields();
    let f1 = Fields { version: Some("1"@), ..f0 };
    let f2 = Fields { interval: Some(decimal(secs)), ..f1 };
    let f3 = Fields { active: Some(av), ..f2 };
    let f4 = Fields { count: Some(decimal(n)), ..f3 };
    assert(f4 == header_fields(c));
    assert(read_record(f0, lines[0], 1) == Ok::<Fields, ParseFault>(f0));
    lemma_record("version"@, "1"@);
    assert(lines[1] =~= "version"@ + "="@ + "1"@);
    assert(read_record(f0, lines[1], 2) == Ok::<Fields, ParseFault>(f1));
    lemma_record("poll_interval_secs"@, decimal(secs));
    assert(lines[2] =~= "poll_interval_secs"@ + "="@ + decimal(secs));
    assert(read_record(f1, lines[2], 3) == Ok::<Fields, ParseFault>(f2));
    lemma_record("active_server"@, av);
    assert(lines[3] =~= "active_server"@ + "="@ + av);
    assert(read_record(f2, lines[3], 4) == Ok::<Fields, ParseFault>(f3));
    lemma_record("server_count"@, decimal(n));
    assert(lines[4] =~= "server_count"@ + "="@ + decimal(n));
    assert(read_record(f3, lines[4], 5) == Ok::<Fields, ParseFault>(f4));
    assert(read_lines(lines, 4, f3) == read_lines(lines, 5, f4));
    assert(read_lines(lines, 3, f2) == read_lines(lines, 4, f3));
    assert(read_lines(lines, 2, f1) == read_lines(lines, 3, f2));
    assert(read_lines(lines, 1, f0) == read_lines(lines, 2, f1));
    assert(read_lines(lines, 0, f0) == read_lines(lines, 1, f0));
}

proof fn lemma_finish(c: ConfigModel)
    requires
        storable(c),
    ensures
        finish(Fields { servers: c.servers, ..header_fields(c) }) == Ok::<
            (Seq<(Seq<char>, Seq<char>)>, Option<usize>, nat),
            ParseFault,
        >((c.servers, c.active_server, interval_secs(c))),
{
    reveal_strlit("1");
    reveal_strlit("none");
    let secs = interval_secs(c);
    let n = c.servers.len();
    lemma_whole_seconds_interval(c.polling.interval_spec());
    crate::text::lemma_decimal_parses(secs, u64::MAX as nat);
    crate::text::lemma_decimal_parses(n, usize::MAX as nat);
    match c.active_server {
        Some(i) => {
            crate::text::lemma_decimal_parses(i as nat, usize::MAX as nat);
            assert(active_value(c.active_server) != "none"@) by {
                assert(decimal(i as nat)[0] != 'n');
            }
        },
        None => {},
    }
}

/// A storable configuration, written in the storage format, reads back as
/// the same servers, the same selection and its interval in whole seconds,
/// provided each server name is text whose percent encoding decodes back to
/// it (as every name held in a string does).
pub proof fn lemma_saved_configuration_reads_back(c: ConfigModel)
    requires
        storable(c),
        forall|i: int|
            0 <= i < c.servers.len() ==> percent_decode(percent_encode(#[trigger] c.servers[i].0))
                == Ok::<Seq<char>, Seq<char>>(c.servers[i].0),
    ensures
        parse_spec(join_lines(config_lines(c))) == Ok::<
            (Seq<(Seq<char>, Seq<char>)>, Option<usize>, nat),
            ParseFault,
        >((c.servers, c.active_server, interval_secs(c))),
{
    let lines = config_lines(c);
    lemma_lines_split(c);
    lemma_header_reads(c);
    let f4 = header_fields(c);
    assert forall|i: int| 0 <= i < c.servers.len() implies lines[5 + i] == server_line(
        #[trigger] c.servers[i],
    ) by {}
    lemma_read_servers(lines, f4, c.servers, 0);
    assert(c.servers.take(0) =~= Seq::<(Seq<char>, Seq<char>)>::empty());
    assert(f4 == Fields { servers: c.servers.take(0), ..f4 });
    lemma_finish(c);
}

/// The interval of whole seconds under a valid interval is valid too.
proof fn lemma_whole_seconds_interval(d: Duration)
    requires
        interval_error(d) is None,
    ensures
        d@ / 1_000_000_000 <= u64::MAX,
        interval_error(Duration::spec_from_secs((d@ / 1_000_000_000) as u64)) is None,
{
    let secs = d@ / 1_000_000_000;
    assert(5 <= secs <= 3600);
    crate::time::lemma_spec_from_secs(secs as u64);
}

/// A configuration that survives being written and read back: every server
/// is a valid profile, the selection is a valid index and the polling
/// interval is within its bounds.
pub open spec fn storable(c: ConfigModel) -> bool {
    &&& forall|i: int|
        0 <= i < c.servers.len() ==> profile_error(#[trigger] c.servers[i].0, c.servers[i].1)
            is None
    &&& c.active_server matches Some(i) ==> i < c.servers.len()
    &&& c.servers.len() <= usize::MAX
    &&& interval_error(c.polling.interval_spec()) is None
}

} // verus!
