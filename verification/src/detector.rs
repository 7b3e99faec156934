//! Which of the supported package managers this host has.
//!
//! The caller looks for each candidate's binary on the search path and
//! reports what it found; this module decides what is available and what
//! is preferred.

use vstd::prelude::*;
use crate::package_manager::PackageManager;

verus! {

/// What came of looking for one binary on the search path.
#[derive(Debug, Clone, Copy, PartialEq, Eq, Structural)]
pub enum Probe {
    /// The binary was found.
    Found,
    /// The search ran and found nothing.
    Missing,
    /// The search itself could not be run.
    Failed,
}

/// Decides which package managers are available.
pub struct PackageManagerDetector;


/// The place of a manager in the order of preference: the AUR helpers come
/// first, then the system package managers, then the universal ones.
pub open spec fn rank(pm: PackageManager) -> int {
    match pm {
        PackageManager::Paru => 0,
        PackageManager::Yay => 1,
        PackageManager::Pacman => 2,
        PackageManager::Apt => 3,
        PackageManager::Dnf => 4,
        PackageManager::Zypper => 5,
        PackageManager::Apk => 6,
        PackageManager::Flatpak => 7,
    }
}

/// The managers in the order of preference.
pub open spec fn priority() -> Seq<PackageManager> {
    seq![
        PackageManager::Paru,
        PackageManager::Yay,
        PackageManager::Pacman,
        PackageManager::Apt,
        PackageManager::Dnf,
        PackageManager::Zypper,
        PackageManager::Apk,
        PackageManager::Flatpak,
    ]
}

/// Whether the probes show `pm` to be available. `probes[k]` is what came
/// of looking for the manager of rank `k`; a manager without a probe, or
/// whose probe failed, is not available.
pub open spec fn available(probes: Seq<Probe>, pm: PackageManager) -> bool {
    rank(pm) < probes.len() && probes[rank(pm)] == Probe::Found
}

/// The available managers among the first `n` in the order of preference.
pub open spec fn detected_among(probes: Seq<Probe>, n: int) -> Seq<PackageManager>
    decreases n,
{
    if n <= 0 || n > priority().len() {
        Seq::empty()
    } else {
        let before = detected_among(probes, n - 1);
        if available(probes, priority()[n - 1]) {
            before.push(priority()[n - 1])
        } else {
            before
        }
    }
}

/// The available managers, in the order of preference.
pub open spec fn detected(probes: Seq<Probe>) -> Seq<PackageManager> {
    detected_among(probes, priority().len() as int)
}

/// The available manager that comes first in the order of preference.
pub open spec fn preferred(probes: Seq<Probe>) -> Option<PackageManager> {
    if detected(probes).len() > 0 {
        Some(detected(probes)[0])
    } else {
        None
    }
}

/// `detected_among(probes, n)` holds exactly the available managers of rank
/// below `n`, each once, in the order of preference.
pub proof fn lemma_detected_among(probes: Seq<Probe>, n: int)
    requires
        0 <= n <= priority().len(),
    ensures
        forall|pm: PackageManager|
            detected_among(probes, n).contains(pm) <==> (rank(pm) < n && available(probes, pm)),
        forall|i: int, j: int|
            0 <= i < j < detected_among(probes, n).len() ==> rank(
                #[trigger] detected_among(probes, n)[i],
            ) < rank(#[trigger] detected_among(probes, n)[j]),
        forall|i: int|
            0 <= i < detected_among(probes, n).len() ==> rank(
                #[trigger] detected_among(probes, n)[i],
            ) < n,
    decreases n,
{
    if n > 0 {
        lemma_detected_among(probes, n - 1);
        let before = detected_among(probes, n - 1);
        let now = detected_among(probes, n);
        let pm_n = priority()[n - 1];
        assert(rank(pm_n) == n - 1);
        assert forall|pm: PackageManager| now.contains(pm) <==> (rank(pm) < n && available(
            probes,
            pm,
        )) by {
            if available(probes, pm_n) {
                assert(now == before.push(pm_n));
                if now.contains(pm) {
                    let i = choose|i: int| 0 <= i < now.len() && now[i] == pm;
                    if i < before.len() {
                        assert(before[i] == pm);
                        assert(before.contains(pm));
                    }
                }
                if rank(pm) < n && available(probes, pm) {
                    if rank(pm) == n - 1 {
                        assert(pm == pm_n);
                        assert(now[now.len() - 1] == pm);
                    } else {
                        assert(before.contains(pm));
                        let i = choose|i: int| 0 <= i < before.len() && before[i] == pm;
                        assert(now[i] == pm);
                    }
                }
            } else {
                if rank(pm) == n - 1 {
                    assert(pm == pm_n);
                }
            }
        }
    }
}

/// The available managers are exactly those whose probe found the binary,
/// each once, in the order of preference.
pub proof fn lemma_detected(probes: Seq<Probe>)
    ensures
        forall|pm: PackageManager| detected(probes).contains(pm) <==> available(probes, pm),
        forall|i: int, j: int|
            0 <= i < j < detected(probes).len() ==> rank(#[trigger] detected(probes)[i]) < rank(
                #[trigger] detected(probes)[j],
            ),
{
    lemma_detected_among(probes, priority().len() as int);
}

/// The preferred manager is available, and no available manager comes
/// before it; there is none exactly when no manager is available.
pub proof fn lemma_preferred(probes: Seq<Probe>)
    ensures
        match preferred(probes) {
            Some(pm) => available(probes, pm) && forall|other: PackageManager|
                available(probes, other) ==> rank(pm) <= rank(other),
            None => forall|other: PackageManager| !available(probes, other),
        },
{
    lemma_detected(probes);
    let d = detected(probes);
    if d.len() > 0 {
        let pm = d[0];
        assert(d.contains(pm));
        assert forall|other: PackageManager| available(probes, other) implies rank(pm) <= rank(
            other,
        ) by {
            assert(d.contains(other));
            let j = choose|j: int| 0 <= j < d.len() && d[j] == other;
            if j > 0 {
                assert(rank(d[0]) < rank(d[j]));
            }
        }
    } else {
        assert forall|other: PackageManager| !available(probes, other) by {
            if available(probes, other) {
                assert(d.contains(other));
            }
        }
    }
}

impl PackageManagerDetector {
    /// The supported managers in the order of preference: the order in
    /// which to probe, and in which to report the probes.
    pub fn candidates() -> (r: Vec<PackageManager>)
        ensures
            r@ == priority(),
    {
        let mut r: Vec<PackageManager> = Vec::new();
        r.push(PackageManager::Paru);
        r.push(PackageManager::Yay);
        r.push(PackageManager::Pacman);
        r.push(PackageManager::Apt);
        r.push(PackageManager::Dnf);
        r.push(PackageManager::Zypper);
        r.push(PackageManager::Apk);
        r.push(PackageManager::Flatpak);
        assert(r@ =~= priority());
        r
    }

    /// Whether a probe shows its manager to be available. A probe that
    /// failed counts as a binary that is missing.
    pub fn is_available(probe: Probe) -> (r: bool)
        ensures
            r == (probe == Probe::Found),
    {
        match probe {
            Probe::Found => true,
            Probe::Missing => false,
            Probe::Failed => false,
        }
    }

    /// The available managers in the order of preference, where `probes[k]`
    /// is what came of looking for `candidates()[k]`.
    pub fn detect_available(probes: &Vec<Probe>) -> (r: Vec<PackageManager>)
        ensures
            r@ == detected(probes@),
            forall|pm: PackageManager| r@.contains(pm) <==> available(probes@, pm),
            forall|i: int, j: int|
                0 <= i < j < r@.len() ==> rank(#[trigger] r@[i]) < rank(#[trigger] r@[j]),
    {
        let candidates = Self::candidates();
        let mut out: Vec<PackageManager> = Vec::new();
        let mut k: usize = 0;
        while k < candidates.len()
            invariant
                k <= candidates.len(),
                candidates@ == priority(),
                out@ == detected_among(probes@, k as int),
            decreases candidates.len() - k,
        {
            let pm = candidates[k];
            assert(rank(pm) == k);
            if k < probes.len() && Self::is_available(probes[k]) {
                out.push(pm);
            }
            k += 1;
        }
        proof {
            lemma_detected(probes@);
        }
        out
    }

    /// The available manager that comes first in the order of preference,
    /// if any is available.
    pub fn get_preferred(probes: &Vec<Probe>) -> (r: Option<PackageManager>)
        ensures
            r == preferred(probes@),
            match r {
                Some(pm) => available(probes@, pm) && forall|other: PackageManager|
                    available(probes@, other) ==> rank(pm) <= rank(other),
                None => forall|other: PackageManager| !available(probes@, other),
            },
    {
        let found = Self::detect_available(probes);
        proof {
            lemma_preferred(probes@);
        }
        if found.len() > 0 {
            Some(found[0])
        } else {
            None
        }
    }
}

} // verus!
