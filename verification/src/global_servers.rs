//! A catalog of well-known public NTP servers for a server browser.
//!
//! Entries name hostnames only: addresses of DNS-backed services and pools
//! change over time, so no fallback address is recorded.
use vstd::prelude::*;

use crate::servers::{Category, IpAddress, ServerProfile};
use crate::text::{chars_of, contains_chars, contains_seq, to_lowercase, unicode_lowercase};

verus! {

/// A server profile with the information a browser shows beside it.
#[derive(Debug, Clone, PartialEq, Eq)]
pub struct GlobalServerEntry {
    profile: ServerProfile,
    category: Category,
    strategy: &'static str,
    notes: &'static str,
}

impl GlobalServerEntry {
    pub closed spec fn spec_profile(&self) -> ServerProfile {
        self.profile
    }

    pub closed spec fn spec_category(&self) -> Category {
        self.category
    }

    pub closed spec fn spec_strategy(&self) -> &'static str {
        self.strategy
    }

    pub closed spec fn spec_notes(&self) -> &'static str {
        self.notes
    }

    fn new(
        name: &'static str,
        hostname: &'static str,
        category: Category,
        strategy: &'static str,
        notes: &'static str,
    ) -> (e: GlobalServerEntry)
        ensures
            e.spec_profile()@ == (name@, hostname@, None::<IpAddress>),
            e.spec_category() == category,
            e.spec_strategy() == strategy,
            e.spec_notes() == notes,
    {
        GlobalServerEntry {
            profile: ServerProfile::listed(name, hostname, None),
            category,
            strategy,
            notes,
        }
    }

    /// The profile used by the time service.
    pub fn profile(&self) -> (p: &ServerProfile)
        ensures
            *p == self.spec_profile(),
    {
        &self.profile
    }

    pub fn category(&self) -> (c: Category)
        ensures
            c == self.spec_category(),
    {
        self.category
    }

    pub fn strategy(&self) -> (s: &'static str)
        ensures
            s == self.spec_strategy(),
    {
        self.strategy
    }

    pub fn notes(&self) -> (s: &'static str)
        ensures
            s == self.spec_notes(),
    {
        self.notes
    }
}

/// Whether `entry` is listed under `category` (every entry is, for `None`)
/// and matches the lower-cased query `q` (every entry does, for the empty
/// query) in its lower-cased name, hostname, category or notes.
pub open spec fn global_entry_matches(
    entry: GlobalServerEntry,
    category: Option<Category>,
    q: Seq<char>,
) -> bool {
    &&& (category matches Some(c) ==> entry.spec_category() == c)
    &&& (q.len() == 0 || contains_seq(unicode_lowercase(entry.spec_profile()@.0), q)
        || contains_seq(unicode_lowercase(entry.spec_profile()@.1), q) || contains_seq(
        unicode_lowercase(entry.spec_category().label()@),
        q,
    ) || contains_seq(unicode_lowercase(entry.spec_notes()@), q))
}

fn lower_chars(s: &str) -> (v: Vec<char>)
    ensures
        v@ == unicode_lowercase(s@),
        s@.len() == 0 ==> v@.len() == 0,
{
    let l = to_lowercase(s);
    chars_of(l.as_str())
}

fn entry_matches_exec(entry: &GlobalServerEntry, category: Option<Category>, q: &Vec<char>) -> (b:
    bool)
    ensures
        b == global_entry_matches(*entry, category, q@),
{
    match category {
        Some(c) => {
            if entry.category != c {
                return false;
            }
        },
        None => {},
    }
    if q.len() == 0 {
        return true;
    }
    contains_chars(lower_chars(entry.profile.name()).as_slice(), q.as_slice()) || contains_chars(
        lower_chars(entry.profile.hostname()).as_slice(),
        q.as_slice(),
    ) || contains_chars(lower_chars(entry.category.as_str()).as_slice(), q.as_slice())
        || contains_chars(lower_chars(entry.notes).as_slice(), q.as_slice())
}

/// The entries of the curated built-in catalog, in order.
pub open spec fn is_built_in(entries: Seq<GlobalServerEntry>) -> bool {
    &&& entries.len() == 20
    &&& entries[0].spec_profile()@ == ("Google Public NTP"@, "time.google.com"@, None::<IpAddress>)
    &&& entries[0].spec_category() == Category::Corporate
    &&& entries[0].spec_strategy() == "Anycast"
    &&& entries[0].spec_notes() == "Public service."
    &&& entries[1].spec_profile()@ == ("Cloudflare Time"@, "time.cloudflare.com"@, None::<IpAddress>)
    &&& entries[1].spec_category() == Category::Corporate
    &&& entries[1].spec_strategy() == "Anycast"
    &&& entries[1].spec_notes() == "Public service."
    &&& entries[2].spec_profile()@ == ("Meta NTP"@, "time.facebook.com"@, None::<IpAddress>)
    &&& entries[2].spec_category() == Category::Corporate
    &&& entries[2].spec_strategy() == "Anycast"
    &&& entries[2].spec_notes() == "Public service."
    &&& entries[3].spec_profile()@ == ("Microsoft Azure NTP"@, "time.windows.com"@, None::<IpAddress>)
    &&& entries[3].spec_category() == Category::Corporate
    &&& entries[3].spec_strategy() == "Anycast"
    &&& entries[3].spec_notes() == "Public service."
    &&& entries[4].spec_profile()@ == ("NIST"@, "time.nist.gov"@, None::<IpAddress>)
    &&& entries[4].spec_category() == Category::Standards
    &&& entries[4].spec_strategy() == "Reference clocks"
    &&& entries[4].spec_notes() == "US national time service."
    &&& entries[5].spec_profile()@ == ("USNO"@, "tick.usno.navy.mil"@, None::<IpAddress>)
    &&& entries[5].spec_category() == Category::Standards
    &&& entries[5].spec_strategy() == "Reference clocks"
    &&& entries[5].spec_notes() == "US Naval Observatory service."
    &&& entries[6].spec_profile()@ == ("PTB"@, "ptbtime1.ptb.de"@, None::<IpAddress>)
    &&& entries[6].spec_category() == Category::Standards
    &&& entries[6].spec_strategy() == "Reference clocks"
    &&& entries[6].spec_notes() == "German national metrology institute."
    &&& entries[7].spec_profile()@ == ("NICT"@, "ntp.nict.jp"@, None::<IpAddress>)
    &&& entries[7].spec_category() == Category::Standards
    &&& entries[7].spec_strategy() == "Reference clocks"
    &&& entries[7].spec_notes() == "Japan national time service."
    &&& entries[8].spec_profile()@ == ("NTP Pool Project"@, "pool.ntp.org"@, None::<IpAddress>)
    &&& entries[8].spec_category() == Category::Pool
    &&& entries[8].spec_strategy() == "GeoDNS"
    &&& entries[8].spec_notes() == "Community-operated global pool."
    &&& entries[9].spec_profile()@ == ("North America Pool"@, "north-america.pool.ntp.org"@, None::<IpAddress>)
    &&& entries[9].spec_category() == Category::Pool
    &&& entries[9].spec_strategy() == "GeoDNS"
    &&& entries[9].spec_notes() == "Regional community pool."
    &&& entries[10].spec_profile()@ == ("Europe Pool"@, "europe.pool.ntp.org"@, None::<IpAddress>)
    &&& entries[10].spec_category() == Category::Pool
    &&& entries[10].spec_strategy() == "GeoDNS"
    &&& entries[10].spec_notes() == "Regional community pool."
    &&& entries[11].spec_profile()@ == ("Asia Pool"@, "asia.pool.ntp.org"@, None::<IpAddress>)
    &&& entries[11].spec_category() == Category::Pool
    &&& entries[11].spec_strategy() == "GeoDNS"
    &&& entries[11].spec_notes() == "Regional community pool."
    &&& entries[12].spec_profile()@ == ("Oceania Pool"@, "oceania.pool.ntp.org"@, None::<IpAddress>)
    &&& entries[12].spec_category() == Category::Pool
    &&& entries[12].spec_strategy() == "GeoDNS"
    &&& entries[12].spec_notes() == "Regional community pool."
    &&& entries[13].spec_profile()@ == ("South America Pool"@, "south-america.pool.ntp.org"@, None::<IpAddress>)
    &&& entries[13].spec_category() == Category::Pool
    &&& entries[13].spec_strategy() == "GeoDNS"
    &&& entries[13].spec_notes() == "Regional community pool."
    &&& entries[14].spec_profile()@ == ("Africa Pool"@, "africa.pool.ntp.org"@, None::<IpAddress>)
    &&& entries[14].spec_category() == Category::Pool
    &&& entries[14].spec_strategy() == "GeoDNS"
    &&& entries[14].spec_notes() == "Regional community pool."
    &&& entries[15].spec_profile()@ == ("Ubuntu"@, "ntp.ubuntu.com"@, None::<IpAddress>)
    &&& entries[15].spec_category() == Category::Distribution
    &&& entries[15].spec_strategy() == "Distribution default"
    &&& entries[15].spec_notes() == "Ubuntu default time service."
    &&& entries[16].spec_profile()@ == ("Fedora"@, "2.fedora.pool.ntp.org"@, None::<IpAddress>)
    &&& entries[16].spec_category() == Category::Distribution
    &&& entries[16].spec_strategy() == "Distribution default"
    &&& entries[16].spec_notes() == "Fedora regional pool alias."
    &&& entries[17].spec_profile()@ == ("Apple"@, "time.apple.com"@, None::<IpAddress>)
    &&& entries[17].spec_category() == Category::Vendor
    &&& entries[17].spec_strategy() == "Anycast"
    &&& entries[17].spec_notes() == "Apple public time service."
    &&& entries[18].spec_profile()@ == ("Juniper"@, "ntp.juniper.net"@, None::<IpAddress>)
    &&& entries[18].spec_category() == Category::Vendor
    &&& entries[18].spec_strategy() == "Vendor service"
    &&& entries[18].spec_notes() == "Juniper public NTP service."
    &&& entries[19].spec_profile()@ == ("Netnod"@, "ntp.netnod.se"@, None::<IpAddress>)
    &&& entries[19].spec_category() == Category::Vendor
    &&& entries[19].spec_strategy() == "Vendor service"
    &&& entries[19].spec_notes() == "Swedish Internet infrastructure operator."
}

/// An owned catalog of global NTP server entries.
#[derive(Debug, Clone, Default, PartialEq, Eq)]
pub struct GlobalServerCatalog {
    entries: Vec<GlobalServerEntry>,
}

impl GlobalServerCatalog {
    pub closed spec fn spec_entries(&self) -> Seq<GlobalServerEntry> {
        self.entries@
    }

    /// The curated built-in catalog.
    pub fn built_in() -> (c: GlobalServerCatalog)
        ensures
            is_built_in(c.spec_entries()),
    {
        let mut entries: Vec<GlobalServerEntry> = Vec::new();
        entries.push(entry("Google Public NTP", "time.google.com", Category::Corporate, "Anycast", "Public service."));
        entries.push(entry("Cloudflare Time", "time.cloudflare.com", Category::Corporate, "Anycast", "Public service."));
        entries.push(entry("Meta NTP", "time.facebook.com", Category::Corporate, "Anycast", "Public service."));
        entries.push(entry("Microsoft Azure NTP", "time.windows.com", Category::Corporate, "Anycast", "Public service."));
        entries.push(entry("NIST", "time.nist.gov", Category::Standards, "Reference clocks", "US national time service."));
        entries.push(entry("USNO", "tick.usno.navy.mil", Category::Standards, "Reference clocks", "US Naval Observatory service."));
        entries.push(entry("PTB", "ptbtime1.ptb.de", Category::Standards, "Reference clocks", "German national metrology institute."));
        entries.push(entry("NICT", "ntp.nict.jp", Category::Standards, "Reference clocks", "Japan national time service."));
        entries.push(entry("NTP Pool Project", "pool.ntp.org", Category::Pool, "GeoDNS", "Community-operated global pool."));
        entries.push(entry("North America Pool", "north-america.pool.ntp.org", Category::Pool, "GeoDNS", "Regional community pool."));
        entries.push(entry("Europe Pool", "europe.pool.ntp.org", Category::Pool, "GeoDNS", "Regional community pool."));
        entries.push(entry("Asia Pool", "asia.pool.ntp.org", Category::Pool, "GeoDNS", "Regional community pool."));
        entries.push(entry("Oceania Pool", "oceania.pool.ntp.org", Category::Pool, "GeoDNS", "Regional community pool."));
        entries.push(entry("South America Pool", "south-america.pool.ntp.org", Category::Pool, "GeoDNS", "Regional community pool."));
        entries.push(entry("Africa Pool", "africa.pool.ntp.org", Category::Pool, "GeoDNS", "Regional community pool."));
        entries.push(entry("Ubuntu", "ntp.ubuntu.com", Category::Distribution, "Distribution default", "Ubuntu default time service."));
        entries.push(entry("Fedora", "2.fedora.pool.ntp.org", Category::Distribution, "Distribution default", "Fedora regional pool alias."));
        entries.push(entry("Apple", "time.apple.com", Category::Vendor, "Anycast", "Apple public time service."));
        entries.push(entry("Juniper", "ntp.juniper.net", Category::Vendor, "Vendor service", "Juniper public NTP service."));
        entries.push(entry("Netnod", "ntp.netnod.se", Category::Vendor, "Vendor service", "Swedish Internet infrastructure operator."));
        GlobalServerCatalog { entries }
    }

    pub fn entries(&self) -> (e: &[GlobalServerEntry])
        ensures
            e@ == self.spec_entries(),
    {
        self.entries.as_slice()
    }

    /// The entries in `category` (all, for `None`) whose name, hostname,
    /// category or notes contain `query`, compared after Unicode
    /// lower-casing; an empty query matches every entry of the category.
    pub fn filter(&self, category: Option<Category>, query: &str) -> (r: Vec<&GlobalServerEntry>)
        ensures
            r@.map_values(|e: &GlobalServerEntry| *e) == self.spec_entries().filter(
                |e: GlobalServerEntry| global_entry_matches(e, category, unicode_lowercase(query@)),
            ),
            query@.len() == 0 ==> r@.map_values(|e: &GlobalServerEntry| *e) == self.spec_entries().filter(
                |e: GlobalServerEntry| category matches Some(c) ==> e.spec_category() == c,
            ),
    {
        let q = lower_chars(query);
        let ghost pred = |e: GlobalServerEntry|
            global_entry_matches(e, category, unicode_lowercase(query@));
        let mut out: Vec<&GlobalServerEntry> = Vec::new();
        let mut i: usize = 0;
        proof {
            assert(self.entries@.take(0) =~= Seq::<GlobalServerEntry>::empty());
            assert(out@.map_values(|e: &GlobalServerEntry| *e) =~= Seq::<GlobalServerEntry>::empty());
            reveal(Seq::filter);
        }
        while i < self.entries.len()
            invariant
                i <= self.entries@.len(),
                q@ == unicode_lowercase(query@),
                pred == (|e: GlobalServerEntry|
                    global_entry_matches(e, category, unicode_lowercase(query@))),
                out@.map_values(|e: &GlobalServerEntry| *e) == self.entries@.take(i as int).filter(
                    pred,
                ),
            decreases self.entries@.len() - i,
        {
            let e = &self.entries[i];
            proof {
                assert(self.entries@.take(i + 1) =~= self.entries@.take(i as int).push(*e));
                self.entries@.take(i as int).lemma_filter_push(*e, pred);
            }
            let ghost before = out@;
            if entry_matches_exec(e, category, &q) {
                out.push(e);
                assert(out@.map_values(|x: &GlobalServerEntry| *x) =~= before.map_values(
                    |x: &GlobalServerEntry| *x,
                ).push(*e));
            }
            i += 1;
        }
        assert(self.entries@.take(self.entries@.len() as int) =~= self.entries@);
        proof {
            if query@.len() == 0 {
                let by_category = |e: GlobalServerEntry| category matches Some(c) ==> e.spec_category() == c;
                assert(pred =~= by_category);
            }
        }
        out
    }
}

/// The built-in global catalog.
pub fn built_in() -> (c: GlobalServerCatalog)
    ensures
        is_built_in(c.spec_entries()),
{
    GlobalServerCatalog::built_in()
}

fn entry(
    name: &'static str,
    hostname: &'static str,
    category: Category,
    strategy: &'static str,
    notes: &'static str,
) -> (e: GlobalServerEntry)
    ensures
        e.spec_profile()@ == (name@, hostname@, None::<IpAddress>),
        e.spec_category() == category,
        e.spec_strategy() == strategy,
        e.spec_notes() == notes,
{
    GlobalServerEntry::new(name, hostname, category, strategy, notes)
}

} // verus!
