//! Update records and the report that one check returns.

use vstd::prelude::*;

verus! {

/// One package for which a newer version is available.
#[derive(Debug, Clone, PartialEq, Eq)]
pub struct PackageUpdate {
    pub name: String,
    /// The installed version, or `unknown` where the tool does not say.
    pub current_version: String,
    pub new_version: String,
    /// Whether the package comes from the AUR.
    pub is_aur: bool,
}

/// What a `PackageUpdate` stands for.
pub struct UpdateRecord {
    pub name: Seq<char>,
    pub current_version: Seq<char>,
    pub new_version: Seq<char>,
    pub is_aur: bool,
}

impl View for PackageUpdate {
    type V = UpdateRecord;

    open spec fn view(&self) -> UpdateRecord {
        UpdateRecord {
            name: self.name@,
            current_version: self.current_version@,
            new_version: self.new_version@,
            is_aur: self.is_aur,
        }
    }
}

/// The version text that stands for a version the tool did not report.
pub open spec fn unknown() -> Seq<char> {
    "unknown"@
}

/// The records that a sequence of updates stands for.
pub open spec fn records(v: Seq<PackageUpdate>) -> Seq<UpdateRecord> {
    v.map_values(|p: PackageUpdate| p@)
}

/// The record that an optional update stands for.
pub open spec fn record_of(p: Option<PackageUpdate>) -> Option<UpdateRecord> {
    match p {
        Some(u) => Some(u@),
        None => None,
    }
}

/// Whether every record of `rs` has the given origin.
pub open spec fn all_from(rs: Seq<UpdateRecord>, is_aur: bool) -> bool {
    forall|i: int| 0 <= i < rs.len() ==> (#[trigger] rs[i]).is_aur == is_aur
}

/// The result of one update check.
#[derive(Debug, Clone, PartialEq, Eq)]
pub struct UpdateInfo {
    pub total_updates: usize,
    pub official_updates: usize,
    pub aur_updates: usize,
    pub packages: Vec<PackageUpdate>,
}

/// What an `UpdateInfo` stands for.
pub struct UpdateReport {
    pub total: nat,
    pub official: nat,
    pub aur: nat,
    pub records: Seq<UpdateRecord>,
}

impl UpdateReport {
    /// The counts agree with the records: the official records come first,
    /// the AUR records after them, and the total counts them all.
    pub open spec fn consistent(self) -> bool {
        &&& self.total == self.records.len()
        &&& self.total == self.official + self.aur
        &&& all_from(self.records.subrange(0, self.official as int), false)
        &&& all_from(self.records.subrange(self.official as int, self.records.len() as int), true)
    }

    /// The report of a check that found nothing.
    pub open spec fn empty() -> UpdateReport {
        UpdateReport { total: 0, official: 0, aur: 0, records: Seq::empty() }
    }

    /// Whether nothing was found and nothing is counted.
    pub open spec fn is_empty(self) -> bool {
        self.total == 0 && self.official == 0 && self.aur == 0 && self.records.len() == 0
    }

    /// The report of a check that found `official` in the official
    /// repositories and `aur` in the AUR.
    pub open spec fn of(official: Seq<UpdateRecord>, aur: Seq<UpdateRecord>) -> UpdateReport {
        UpdateReport {
            total: official.len() + aur.len(),
            official: official.len(),
            aur: aur.len(),
            records: official + aur,
        }
    }
}

impl View for UpdateInfo {
    type V = UpdateReport;

    open spec fn view(&self) -> UpdateReport {
        UpdateReport {
            total: self.total_updates as nat,
            official: self.official_updates as nat,
            aur: self.aur_updates as nat,
            records: records(self.packages@),
        }
    }
}

impl UpdateInfo {
    /// The report of a check that found nothing.
    pub fn new() -> (r: UpdateInfo)
        ensures
            r@ == UpdateReport::empty(),
            r@.consistent(),
    {
        let r = UpdateInfo {
            total_updates: 0,
            official_updates: 0,
            aur_updates: 0,
            packages: Vec::new(),
        };
        assert(r@.records =~= Seq::<UpdateRecord>::empty());
        r
    }

    /// Whether there is any update.
    pub fn has_updates(&self) -> (r: bool)
        ensures
            r == (self@.total > 0),
    {
        self.total_updates > 0
    }

    /// The report of a check that found `official` in the official
    /// repositories and `aur` in the AUR.
    pub fn aggregate(official: Vec<PackageUpdate>, aur: Vec<PackageUpdate>) -> (r: UpdateInfo)
        ensures
            r@ == UpdateReport::of(records(official@), records(aur@)),
            all_from(records(official@), false) && all_from(records(aur@), true)
                ==> r@.consistent(),
    {
        let official_updates = official.len();
        let aur_updates = aur.len();
        let mut packages = official;
        let mut rest = aur;
        packages.append(&mut rest);
        let r = UpdateInfo {
            total_updates: packages.len(),
            official_updates,
            aur_updates,
            packages,
        };
        proof {
            assert(r@.records =~= records(official@) + records(aur@));
            assert(r@.records.subrange(0, official_updates as int) =~= records(official@));
            assert(r@.records.subrange(official_updates as int, r@.records.len() as int)
                =~= records(aur@));
        }
        r
    }
}

/// The report of two sets of records is consistent whenever each set has
/// the origin of its phase: the total is the number of the records and the
/// sum of the two counts.
pub proof fn lemma_report_consistent(official: Seq<UpdateRecord>, aur: Seq<UpdateRecord>)
    requires
        all_from(official, false),
        all_from(aur, true),
    ensures
        UpdateReport::of(official, aur).consistent(),
        UpdateReport::of(official, aur).total == (official + aur).len(),
{
    let r = UpdateReport::of(official, aur);
    assert(r.records.subrange(0, r.official as int) =~= official);
    assert(r.records.subrange(r.official as int, r.records.len() as int) =~= aur);
}

} // verus!
