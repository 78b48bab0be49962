//! Server profiles and the built-in NTP server catalog.
//!
//! Catalog data and validation only: no name resolution, no network access
//! and no credentials.
use vstd::prelude::*;

use crate::config::{ConfigError, hostname_error, name_error, validate_hostname};
use crate::text::{
    chars_of, contains_chars, contains_seq, is_control, is_whitespace, string_from_str,
    to_lowercase, unicode_lowercase,
};

verus! {

/// An IP address, as the integer of its bits: 32 for IPv4, 128 for IPv6.
#[derive(Debug, Clone, Copy, PartialEq, Eq, Structural)]
pub enum IpAddress {
    V4(u32),
    V6(u128),
}

impl IpAddress {
    /// The IPv4 address `a.b.c.d`.
    pub fn v4(a: u8, b: u8, c: u8, d: u8) -> (ip: IpAddress)
        ensures
            ip == IpAddress::V4((a as nat * 0x100_0000 + b as nat * 0x1_0000 + c as nat * 0x100
                + d as nat) as u32),
    {
        let bits: u32 = ((a as u32) << 24u32) | ((b as u32) << 16u32) | ((c as u32) << 8u32) | (
        d as u32);
        assert(bits == a as nat * 0x100_0000 + b as nat * 0x1_0000 + c as nat * 0x100 + d as nat)
            by (bit_vector)
            requires
                bits == ((a as u32) << 24u32) | ((b as u32) << 16u32) | ((c as u32) << 8u32) | (
                d as u32),
        ;
        IpAddress::V4(bits)
    }
}

/// Errors returned when constructing a server profile.
#[derive(Debug, Clone, Copy, PartialEq, Eq, Structural)]
pub enum ProfileError {
    EmptyName,
    InvalidName,
    EmptyHostname,
    HostnameTooLong,
    InvalidHostname,
    InvalidHostnameLabel,
    InvalidIpFallback,
}

impl ProfileError {
    pub open spec fn message(self) -> &'static str {
        match self {
            ProfileError::EmptyName => "server name cannot be empty",
            ProfileError::InvalidName => "server name contains a control character",
            ProfileError::EmptyHostname => "hostname cannot be empty",
            ProfileError::HostnameTooLong => "hostname is too long",
            ProfileError::InvalidHostname => "hostname contains invalid characters",
            ProfileError::InvalidHostnameLabel => "hostname label is invalid",
            ProfileError::InvalidIpFallback => "IP fallback is invalid",
        }
    }

    pub fn to_string(&self) -> (s: String)
        ensures
            s@ == self.message()@,
    {
        let m: &'static str = match self {
            ProfileError::EmptyName => "server name cannot be empty",
            ProfileError::InvalidName => "server name contains a control character",
            ProfileError::EmptyHostname => "hostname cannot be empty",
            ProfileError::HostnameTooLong => "hostname is too long",
            ProfileError::InvalidHostname => "hostname contains invalid characters",
            ProfileError::InvalidHostnameLabel => "hostname label is invalid",
            ProfileError::InvalidIpFallback => "IP fallback is invalid",
        };
        string_from_str(m)
    }
}

/// The profile error that a configuration error about a name corresponds to.
pub open spec fn name_profile_error(e: ConfigError) -> ProfileError {
    match e {
        ConfigError::EmptyServerName => ProfileError::EmptyName,
        _ => ProfileError::InvalidName,
    }
}

/// The profile error that a configuration error about a hostname
/// corresponds to.
pub open spec fn hostname_profile_error(e: ConfigError) -> ProfileError {
    match e {
        ConfigError::EmptyHostname => ProfileError::EmptyHostname,
        ConfigError::InvalidHostnameLabel => ProfileError::InvalidHostnameLabel,
        _ => ProfileError::InvalidHostname,
    }
}

/// Why a hostname is refused: empty; longer than 253 characters or not
/// ASCII; then the checks of the configuration's hostnames (no leading or
/// trailing dot, labels of 1 to 63 letters, digits and inner hyphens).
pub open spec fn server_hostname_error(h: Seq<char>) -> Option<ProfileError> {
    if h.len() == 0 {
        Some(ProfileError::EmptyHostname)
    } else if h.len() > 253 || exists|i: int| 0 <= i < h.len() && (#[trigger] h[i] as u32) >= 128 {
        Some(ProfileError::HostnameTooLong)
    } else {
        match hostname_error(h) {
            Some(e) => Some(hostname_profile_error(e)),
            None => None,
        }
    }
}

/// Why a profile is refused: first its name, then its hostname.
pub open spec fn server_profile_error(name: Seq<char>, hostname: Seq<char>) -> Option<
    ProfileError,
> {
    match name_error(name) {
        Some(e) => Some(name_profile_error(e)),
        None => server_hostname_error(hostname),
    }
}

fn check_hostname(hostname: &str) -> (r: Result<(), ProfileError>)
    ensures
        match server_hostname_error(hostname@) {
            Some(e) => r == Err::<(), ProfileError>(e),
            None => r is Ok,
        },
{
    let chars = chars_of(hostname);
    if chars.len() == 0 {
        return Err(ProfileError::EmptyHostname);
    }
    if chars.len() > 253 {
        return Err(ProfileError::HostnameTooLong);
    }
    let mut i: usize = 0;
    while i < chars.len()
        invariant
            i <= chars@.len(),
            chars@ == hostname@,
            forall|j: int| 0 <= j < i ==> ((#[trigger] chars@[j]) as u32) < 128,
        decreases chars@.len() - i,
    {
        if chars[i] as u32 >= 128 {
            return Err(ProfileError::HostnameTooLong);
        }
        i += 1;
    }
    match validate_hostname(hostname) {
        Ok(()) => Ok(()),
        Err(ConfigError::EmptyHostname) => Err(ProfileError::EmptyHostname),
        Err(ConfigError::InvalidHostnameLabel) => Err(ProfileError::InvalidHostnameLabel),
        Err(_) => Err(ProfileError::InvalidHostname),
    }
}

fn check_name(name: &str) -> (r: Result<(), ProfileError>)
    ensures
        match name_error(name@) {
            Some(e) => r == Err::<(), ProfileError>(name_profile_error(e)),
            None => r is Ok,
        },
{
    let s = chars_of(name);
    let mut blank = true;
    let mut i: usize = 0;
    while i < s.len()
        invariant
            i <= s@.len(),
            s@ == name@,
            blank == forall|j: int| 0 <= j < i ==> crate::text::is_whitespace_spec(#[trigger] s@[j]),
        decreases s.len() - i,
    {
        if !is_whitespace(s[i]) {
            blank = false;
        }
        i = i + 1;
    }
    if blank {
        return Err(ProfileError::EmptyName);
    }
    let mut i: usize = 0;
    while i < s.len()
        invariant
            i <= s@.len(),
            s@ == name@,
            !(forall|j: int| 0 <= j < s@.len() ==> crate::text::is_whitespace_spec(#[trigger] s@[j])),
            forall|j: int| 0 <= j < i ==> !crate::text::is_control_spec(#[trigger] s@[j]),
        decreases s.len() - i,
    {
        if is_control(s[i]) {
            return Err(ProfileError::InvalidName);
        }
        i = i + 1;
    }
    Ok(())
}

/// A named NTP endpoint with an optional address to use if hostname
/// resolution is unavailable.
#[derive(Debug, PartialEq, Eq)]
pub struct ServerProfile {
    name: String,
    hostname: String,
    ip_fallback: Option<IpAddress>,
}

impl View for ServerProfile {
    type V = (Seq<char>, Seq<char>, Option<IpAddress>);

    /// The name, hostname and fallback address.
    closed spec fn view(&self) -> (Seq<char>, Seq<char>, Option<IpAddress>) {
        (self.name@, self.hostname@, self.ip_fallback)
    }
}

impl Clone for ServerProfile {
    fn clone(&self) -> (c: Self)
        ensures
            c@ == self@,
    {
        ServerProfile {
            name: self.name.clone(),
            hostname: self.hostname.clone(),
            ip_fallback: self.ip_fallback,
        }
    }
}

impl ServerProfile {
    /// Creates a profile after validating its name and hostname.
    pub fn new(name: &str, hostname: &str, ip_fallback: Option<IpAddress>) -> (r: Result<
        Self,
        ProfileError,
    >)
        ensures
            match server_profile_error(name@, hostname@) {
                Some(e) => r == Err::<Self, ProfileError>(e),
                None => r matches Ok(p) && p@ == (name@, hostname@, ip_fallback),
            },
    {
        check_name(name)?;
        check_hostname(hostname)?;
        Ok(ServerProfile::listed(name, hostname, ip_fallback))
    }

    /// A profile from values known to be valid.
    pub(crate) fn listed(name: &str, hostname: &str, ip_fallback: Option<IpAddress>) -> (p: Self)
        ensures
            p@ == (name@, hostname@, ip_fallback),
    {
        ServerProfile {
            name: string_from_str(name),
            hostname: string_from_str(hostname),
            ip_fallback,
        }
    }

    pub fn name(&self) -> (r: &str)
        ensures
            r@ == self@.0,
    {
        self.name.as_str()
    }

    pub fn hostname(&self) -> (r: &str)
        ensures
            r@ == self@.1,
    {
        self.hostname.as_str()
    }

    pub fn ip_fallback(&self) -> (r: Option<IpAddress>)
        ensures
            r == self@.2,
    {
        self.ip_fallback
    }

    /// Whether two profiles are the same.
    pub fn same_as(&self, other: &ServerProfile) -> (r: bool)
        ensures
            r == (self@ == other@),
    {
        let names = crate::text::str_eq(self.name.as_str(), other.name.as_str());
        let hosts = crate::text::str_eq(self.hostname.as_str(), other.hostname.as_str());
        let ips = self.ip_fallback == other.ip_fallback;
        names && hosts && ips
    }
}

/// The broad group used to filter catalog entries.
#[derive(Debug, Clone, Copy, PartialEq, Eq, Structural)]
pub enum Category {
    Corporate,
    Distribution,
    Standards,
    Pool,
    Vendor,
}

impl Category {
    /// Every category, in display order.
    pub fn all() -> (a: [Category; 5])
        ensures
            a@ == seq![
                Category::Corporate,
                Category::Distribution,
                Category::Standards,
                Category::Pool,
                Category::Vendor,
            ],
    {
        let a = [
            Category::Corporate,
            Category::Distribution,
            Category::Standards,
            Category::Pool,
            Category::Vendor,
        ];
        assert(a@ =~= seq![
            Category::Corporate,
            Category::Distribution,
            Category::Standards,
            Category::Pool,
            Category::Vendor,
        ]);
        a
    }

    pub open spec fn label(self) -> &'static str {
        match self {
            Category::Corporate => "Corporate",
            Category::Distribution => "OS & Distribution",
            Category::Standards => "Standards",
            Category::Pool => "NTP Pools",
            Category::Vendor => "Vendor",
        }
    }

    pub fn as_str(self) -> (s: &'static str)
        ensures
            s == self.label(),
    {
        match self {
            Category::Corporate => "Corporate",
            Category::Distribution => "OS & Distribution",
            Category::Standards => "Standards",
            Category::Pool => "NTP Pools",
            Category::Vendor => "Vendor",
        }
    }
}

/// One profile and the catalog information shown alongside it.
#[derive(Debug, Clone, PartialEq, Eq)]
pub struct CatalogEntry {
    profile: ServerProfile,
    category: Category,
    strategy: &'static str,
    notes: &'static str,
}

impl CatalogEntry {
    pub closed spec fn spec_profile(&self) -> ServerProfile {
        self.profile
    }

    pub closed spec fn spec_category(&self) -> Category {
        self.category
    }

    pub closed spec fn spec_strategy(&self) -> &'static str {
        self.strategy
    }

    pub closed spec fn spec_notes(&self) -> &'static str {
        self.notes
    }

    /// An entry for a profile.
    pub fn new(
        profile: ServerProfile,
        category: Category,
        strategy: &'static str,
        notes: &'static str,
    ) -> (e: CatalogEntry)
        ensures
            e.spec_profile() == profile,
            e.spec_category() == category,
            e.spec_strategy() == strategy,
            e.spec_notes() == notes,
    {
        CatalogEntry { profile, category, strategy, notes }
    }

    pub fn profile(&self) -> (p: &ServerProfile)
        ensures
            *p == self.spec_profile(),
    {
        &self.profile
    }

    pub fn category(&self) -> (c: Category)
        ensures
            c == self.spec_category(),
    {
        self.category
    }

    pub fn strategy(&self) -> (s: &'static str)
        ensures
            s == self.spec_strategy(),
    {
        self.strategy
    }

    pub fn notes(&self) -> (s: &'static str)
        ensures
            s == self.spec_notes(),
    {
        self.notes
    }
}

/// Whether `entry` is listed under `category` (every entry is, for `None`)
/// and matches the lower-cased query `q` (every entry does, for the empty
/// query) in its lower-cased name, hostname or category.
pub open spec fn entry_matches(entry: CatalogEntry, category: Option<Category>, q: Seq<char>) -> bool {
    &&& (category matches Some(c) ==> entry.spec_category() == c)
    &&& (q.len() == 0 || contains_seq(unicode_lowercase(entry.spec_profile()@.0), q)
        || contains_seq(unicode_lowercase(entry.spec_profile()@.1), q) || contains_seq(
        unicode_lowercase(entry.spec_category().label()@),
        q,
    ))
}

fn lower_chars(s: &str) -> (v: Vec<char>)
    ensures
        v@ == unicode_lowercase(s@),
        s@.len() == 0 ==> v@.len() == 0,
{
    let l = to_lowercase(s);
    chars_of(l.as_str())
}

fn entry_matches_exec(entry: &CatalogEntry, category: Option<Category>, q: &Vec<char>) -> (b: bool)
    ensures
        b == entry_matches(*entry, category, q@),
{
    match category {
        Some(c) => {
            if entry.category != c {
                return false;
            }
        },
        None => {},
    }
    if q.len() == 0 {
        return true;
    }
    contains_chars(lower_chars(entry.profile.name.as_str()).as_slice(), q.as_slice())
        || contains_chars(lower_chars(entry.profile.hostname.as_str()).as_slice(), q.as_slice())
        || contains_chars(lower_chars(entry.category.as_str()).as_slice(), q.as_slice())
}

/// An owned catalog that can be extended with application-specific entries.
#[derive(Debug, Clone, Default, PartialEq, Eq)]
pub struct ServerCatalog {
    entries: Vec<CatalogEntry>,
}

impl ServerCatalog {
    pub closed spec fn spec_entries(&self) -> Seq<CatalogEntry> {
        self.entries@
    }

    /// The built-in catalog.
    pub fn built_in() -> (c: ServerCatalog)
        ensures
            c.spec_entries().len() == 6,
            c.spec_entries()[0].spec_profile()@ == ("Google Public NTP"@, "time.google.com"@, Some(
                IpAddress::V4(0xD8EF2300),
            )),
            c.spec_entries()[0].spec_category() == Category::Corporate,
            c.spec_entries()[0].spec_strategy() == "Anycast",
            c.spec_entries()[0].spec_notes() == "Public service.",
            c.spec_entries()[1].spec_profile()@ == ("Cloudflare Time"@, "time.cloudflare.com"@, Some(
                IpAddress::V4(0xA29FC801),
            )),
            c.spec_entries()[1].spec_category() == Category::Corporate,
            c.spec_entries()[1].spec_strategy() == "Anycast",
            c.spec_entries()[1].spec_notes() == "Public service.",
            c.spec_entries()[2].spec_profile()@ == ("Ubuntu"@, "ntp.ubuntu.com"@, Some(
                IpAddress::V4(0x5BBD5B9D),
            )),
            c.spec_entries()[2].spec_category() == Category::Distribution,
            c.spec_entries()[2].spec_strategy() == "Canonical",
            c.spec_entries()[2].spec_notes() == "Distribution default.",
            c.spec_entries()[3].spec_profile()@ == ("NIST"@, "time.nist.gov"@, Some(
                IpAddress::V4(0x84A36001),
            )),
            c.spec_entries()[3].spec_category() == Category::Standards,
            c.spec_entries()[3].spec_strategy() == "Atomic clock",
            c.spec_entries()[3].spec_notes() == "US national time service.",
            c.spec_entries()[4].spec_profile()@ == ("Global Pool"@, "pool.ntp.org"@, None::<
                IpAddress,
            >),
            c.spec_entries()[4].spec_category() == Category::Pool,
            c.spec_entries()[4].spec_strategy() == "GeoDNS",
            c.spec_entries()[4].spec_notes() == "Community pool.",
            c.spec_entries()[5].spec_profile()@ == ("NZ Pool"@, "nz.pool.ntp.org"@, None::<
                IpAddress,
            >),
            c.spec_entries()[5].spec_category() == Category::Pool,
            c.spec_entries()[5].spec_strategy() == "GeoDNS",
            c.spec_entries()[5].spec_notes() == "New Zealand regional pool.",
    {
        let mut entries: Vec<CatalogEntry> = Vec::new();
        entries.push(
            entry(
                "Google Public NTP",
                "time.google.com",
                Some(IpAddress::v4(216, 239, 35, 0)),
                Category::Corporate,
                "Anycast",
                "Public service.",
            ),
        );
        entries.push(
            entry(
                "Cloudflare Time",
                "time.cloudflare.com",
                Some(IpAddress::v4(162, 159, 200, 1)),
                Category::Corporate,
                "Anycast",
                "Public service.",
            ),
        );
        entries.push(
            entry(
                "Ubuntu",
                "ntp.ubuntu.com",
                Some(IpAddress::v4(91, 189, 91, 157)),
                Category::Distribution,
                "Canonical",
                "Distribution default.",
            ),
        );
        entries.push(
            entry(
                "NIST",
                "time.nist.gov",
                Some(IpAddress::v4(132, 163, 96, 1)),
                Category::Standards,
                "Atomic clock",
                "US national time service.",
            ),
        );
        entries.push(
            entry(
                "Global Pool",
                "pool.ntp.org",
                None,
                Category::Pool,
                "GeoDNS",
                "Community pool.",
            ),
        );
        entries.push(
            entry(
                "NZ Pool",
                "nz.pool.ntp.org",
                None,
                Category::Pool,
                "GeoDNS",
                "New Zealand regional pool.",
            ),
        );
        ServerCatalog { entries }
    }

    pub fn entries(&self) -> (e: &[CatalogEntry])
        ensures
            e@ == self.spec_entries(),
    {
        self.entries.as_slice()
    }

    pub fn add(&mut self, entry: CatalogEntry)
        ensures
            final(self).spec_entries() == old(self).spec_entries().push(entry),
    {
        self.entries.push(entry);
    }

    /// The entries in `category` (all, for `None`) whose name, hostname or
    /// category contains `query`, compared after Unicode lower-casing; an
    /// empty query matches every entry of the category.
    pub fn filter(&self, category: Option<Category>, query: &str) -> (r: Vec<&CatalogEntry>)
        ensures
            r@.map_values(|e: &CatalogEntry| *e) == self.spec_entries().filter(
                |e: CatalogEntry| entry_matches(e, category, unicode_lowercase(query@)),
            ),
            query@.len() == 0 ==> r@.map_values(|e: &CatalogEntry| *e) == self.spec_entries().filter(
                |e: CatalogEntry| category matches Some(c) ==> e.spec_category() == c,
            ),
    {
        let q = lower_chars(query);
        let ghost pred = |e: CatalogEntry| entry_matches(e, category, unicode_lowercase(query@));
        let mut out: Vec<&CatalogEntry> = Vec::new();
        let mut i: usize = 0;
        proof {
            assert(self.entries@.take(0) =~= Seq::<CatalogEntry>::empty());
            assert(out@.map_values(|e: &CatalogEntry| *e) =~= Seq::<CatalogEntry>::empty());
            reveal(Seq::filter);
        }
        while i < self.entries.len()
            invariant
                i <= self.entries@.len(),
                q@ == unicode_lowercase(query@),
                pred == (|e: CatalogEntry| entry_matches(e, category, unicode_lowercase(query@))),
                out@.map_values(|e: &CatalogEntry| *e) == self.entries@.take(i as int).filter(pred),
            decreases self.entries@.len() - i,
        {
            let e = &self.entries[i];
            proof {
                assert(self.entries@.take(i + 1) =~= self.entries@.take(i as int).push(*e));
                self.entries@.take(i as int).lemma_filter_push(*e, pred);
            }
            let ghost before = out@;
            if entry_matches_exec(e, category, &q) {
                out.push(e);
                assert(out@.map_values(|x: &CatalogEntry| *x) =~= before.map_values(
                    |x: &CatalogEntry| *x,
                ).push(*e));
            }
            i += 1;
        }
        assert(self.entries@.take(self.entries@.len() as int) =~= self.entries@);
        proof {
            if query@.len() == 0 {
                let by_category = |e: CatalogEntry| category matches Some(c) ==> e.spec_category() == c;
                assert(pred =~= by_category);
            }
        }
        out
    }
}

fn entry(
    name: &'static str,
    hostname: &'static str,
    fallback: Option<IpAddress>,
    category: Category,
    strategy: &'static str,
    notes: &'static str,
) -> (e: CatalogEntry)
    ensures
        e.spec_profile()@ == (name@, hostname@, fallback),
        e.spec_category() == category,
        e.spec_strategy() == strategy,
        e.spec_notes() == notes,
{
    CatalogEntry {
        profile: ServerProfile::listed(name, hostname, fallback),
        category,
        strategy,
        notes,
    }
}

} // verus!
