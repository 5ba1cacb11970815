use vstd::prelude::*;

verus! {

/// Short identifier of pure proportional navigation.
pub open spec fn ppn_name() -> Seq<char> {
    seq!['P', 'P', 'N']
}

/// Short identifier of true proportional navigation.
pub open spec fn tpn_name() -> Seq<char> {
    seq!['T', 'P', 'N']
}

/// Short identifier of augmented proportional navigation.
pub open spec fn apn_name() -> Seq<char> {
    seq!['A', 'P', 'N']
}

/// Short identifier of pure pursuit.
pub open spec fn pp_name() -> Seq<char> {
    seq!['P', 'P']
}

/// Short identifier of deviated pursuit.
pub open spec fn dp_name() -> Seq<char> {
    seq!['D', 'P']
}

/// Short identifier of lead pursuit.
pub open spec fn lp_name() -> Seq<char> {
    seq!['L', 'P']
}

/// Pure proportional navigation: lateral acceleration proportional to the
/// interceptor's own speed and the line-of-sight rate.
#[derive(Debug, Clone, Copy, PartialEq, Eq)]
pub struct PureProportionalNavigation;

impl PureProportionalNavigation {
    /// Short identifier of the law.
    pub fn name(&self) -> (r: &'static str)
        ensures
            r@ == ppn_name(),
    {
        proof {
            reveal_strlit("PPN");
        }
        "PPN"
    }
}

/// True proportional navigation: like pure proportional navigation, with the
/// clamped closing speed in place of the interceptor's speed.
#[derive(Debug, Clone, Copy, PartialEq, Eq)]
pub struct TrueProportionalNavigation;

impl TrueProportionalNavigation {
    /// Short identifier of the law.
    pub fn name(&self) -> (r: &'static str)
        ensures
            r@ == tpn_name(),
    {
        proof {
            reveal_strlit("TPN");
        }
        "TPN"
    }
}

/// Pure pursuit: turn the velocity toward the target's current position.
#[derive(Debug, Clone, Copy, PartialEq, Eq)]
pub struct PurePursuit;

impl PurePursuit {
    /// Short identifier of the law.
    pub fn name(&self) -> (r: &'static str)
        ensures
            r@ == pp_name(),
    {
        proof {
            reveal_strlit("PP");
        }
        "PP"
    }
}

/// Deviated pursuit: pure pursuit scaled by a closing-speed aggression factor
/// and damped at short range.
#[derive(Debug, Clone, Copy, PartialEq, Eq)]
pub struct DeviatedPursuit;

impl DeviatedPursuit {
    /// Short identifier of the law.
    pub fn name(&self) -> (r: &'static str)
        ensures
            r@ == dp_name(),
    {
        proof {
            reveal_strlit("DP");
        }
        "DP"
    }
}

/// The six guidance laws, as a closed set.
#[derive(Debug, Clone, Copy, PartialEq, Eq, Hash)]
pub enum GuidanceKind {
    PPN,
    TPN,
    APN,
    PP,
    DP,
    LP,
}

/// Short identifier of each law.
pub open spec fn kind_name(k: GuidanceKind) -> Seq<char> {
    match k {
        GuidanceKind::PPN => ppn_name(),
        GuidanceKind::TPN => tpn_name(),
        GuidanceKind::APN => apn_name(),
        GuidanceKind::PP => pp_name(),
        GuidanceKind::DP => dp_name(),
        GuidanceKind::LP => lp_name(),
    }
}

/// Display label of each law.
pub open spec fn kind_label(k: GuidanceKind) -> Seq<char> {
    match k {
        GuidanceKind::PPN => seq!['P', 'u', 'r', 'e', ' ', 'P', 'N'],
        GuidanceKind::TPN => seq!['T', 'r', 'u', 'e', ' ', 'P', 'N'],
        GuidanceKind::APN => seq!['A', 'u', 'g', 'm', 'e', 'n', 't', 'e', 'd', ' ', 'P', 'N'],
        GuidanceKind::PP => seq!['P', 'u', 'r', 'e', ' ', 'P', 'u', 'r', 's', 'u', 'i', 't'],
        GuidanceKind::DP => seq![
            'D', 'e', 'v', 'i', 'a', 't', 'e', 'd', ' ', 'P', 'u', 'r', 's', 'u', 'i', 't'
        ],
        GuidanceKind::LP => seq!['L', 'e', 'a', 'd', ' ', 'P', 'u', 'r', 's', 'u', 'i', 't'],
    }
}

/// The law that follows `k` in the selection cycle
/// PPN, TPN, APN, PP, DP, LP and back to PPN.
pub open spec fn kind_next(k: GuidanceKind) -> GuidanceKind {
    match k {
        GuidanceKind::PPN => GuidanceKind::TPN,
        GuidanceKind::TPN => GuidanceKind::APN,
        GuidanceKind::APN => GuidanceKind::PP,
        GuidanceKind::PP => GuidanceKind::DP,
        GuidanceKind::DP => GuidanceKind::LP,
        GuidanceKind::LP => GuidanceKind::PPN,
    }
}

/// `k` advanced `n` times through the selection cycle.
pub open spec fn kind_advance(k: GuidanceKind, n: nat) -> GuidanceKind
    decreases n,
{
    if n == 0 {
        k
    } else {
        kind_next(kind_advance(k, (n - 1) as nat))
    }
}

/// Whether two strings hold the same characters.
fn same_text(a: &str, b: &str) -> (r: bool)
    ensures
        r == (a@ == b@),
{
    let n = a.unicode_len();
    if n != b.unicode_len() {
        return false;
    }
    let mut i: usize = 0;
    while i < n
        invariant
            n == a@.len(),
            n == b@.len(),
            i <= n,
            a@.subrange(0, i as int) == b@.subrange(0, i as int),
        decreases n - i,
    {
        if a.get_char(i) != b.get_char(i) {
            assert(a@[i as int] != b@[i as int]);
            return false;
        }
        assert(a@.subrange(0, i + 1) =~= a@.subrange(0, i as int).push(a@[i as int]));
        assert(b@.subrange(0, i + 1) =~= b@.subrange(0, i as int).push(b@[i as int]));
        i = i + 1;
    }
    assert(a@ =~= a@.subrange(0, n as int));
    assert(b@ =~= b@.subrange(0, n as int));
    true
}

impl GuidanceKind {
    /// Short identifier, as reported by the law itself.
    pub fn name(&self) -> (r: &'static str)
        ensures
            r@ == kind_name(*self),
    {
        match self {
            GuidanceKind::PPN => PureProportionalNavigation.name(),
            GuidanceKind::TPN => TrueProportionalNavigation.name(),
            GuidanceKind::APN => {
                proof {
                    reveal_strlit("APN");
                }
                "APN"
            },
            GuidanceKind::PP => PurePursuit.name(),
            GuidanceKind::DP => DeviatedPursuit.name(),
            GuidanceKind::LP => {
                proof {
                    reveal_strlit("LP");
                }
                "LP"
            },
        }
    }

    /// Longer label for menus and overlays.
    pub fn label(&self) -> (r: &'static str)
        ensures
            r@ == kind_label(*self),
    {
        match self {
            GuidanceKind::PPN => {
                proof {
                    reveal_strlit("Pure PN");
                }
                "Pure PN"
            },
            GuidanceKind::TPN => {
                proof {
                    reveal_strlit("True PN");
                }
                "True PN"
            },
            GuidanceKind::APN => {
                proof {
                    reveal_strlit("Augmented PN");
                }
                "Augmented PN"
            },
            GuidanceKind::PP => {
                proof {
                    reveal_strlit("Pure Pursuit");
                }
                "Pure Pursuit"
            },
            GuidanceKind::DP => {
                proof {
                    reveal_strlit("Deviated Pursuit");
                }
                "Deviated Pursuit"
            },
            GuidanceKind::LP => {
                proof {
                    reveal_strlit("Lead Pursuit");
                }
                "Lead Pursuit"
            },
        }
    }

    /// The next law in the selection cycle.
    pub fn next(&self) -> (r: GuidanceKind)
        ensures
            r == kind_next(*self),
    {
        match self {
            GuidanceKind::PPN => GuidanceKind::TPN,
            GuidanceKind::TPN => GuidanceKind::APN,
            GuidanceKind::APN => GuidanceKind::PP,
            GuidanceKind::PP => GuidanceKind::DP,
            GuidanceKind::DP => GuidanceKind::LP,
            GuidanceKind::LP => GuidanceKind::PPN,
        }
    }

    /// The law whose short identifier is `s`, if any.
    pub fn from_name(s: &str) -> (r: Option<GuidanceKind>)
        ensures
            r matches Some(k) ==> kind_name(k) == s@,
            r is None <==> (forall|k: GuidanceKind| kind_name(k) != s@),
    {
        let all = [
            GuidanceKind::PPN,
            GuidanceKind::TPN,
            GuidanceKind::APN,
            GuidanceKind::PP,
            GuidanceKind::DP,
            GuidanceKind::LP,
        ];
        let mut i: usize = 0;
        while i < 6
            invariant
                i <= 6,
                all@ == seq![
                    GuidanceKind::PPN,
                    GuidanceKind::TPN,
                    GuidanceKind::APN,
                    GuidanceKind::PP,
                    GuidanceKind::DP,
                    GuidanceKind::LP,
                ],
                forall|j: int| 0 <= j < i ==> kind_name(#[trigger] all@[j]) != s@,
            decreases 6 - i,
        {
            let k = all[i];
            if same_text(k.name(), s) {
                return Some(k);
            }
            i = i + 1;
        }
        assert forall|k: GuidanceKind| kind_name(k) != s@ by {
            match k {
                GuidanceKind::PPN => assert(all@[0] == k),
                GuidanceKind::TPN => assert(all@[1] == k),
                GuidanceKind::APN => assert(all@[2] == k),
                GuidanceKind::PP => assert(all@[3] == k),
                GuidanceKind::DP => assert(all@[4] == k),
                GuidanceKind::LP => assert(all@[5] == k),
            }
        }
        None
    }
}

/// Distinct laws have distinct short identifiers, so a law is recovered from
/// its identifier.
pub proof fn lemma_name_identifies_kind(a: GuidanceKind, b: GuidanceKind)
    ensures
        kind_name(a) == kind_name(b) ==> a == b,
{
    if kind_name(a) == kind_name(b) {
        let n = kind_name(a);
        assert(n.len() == kind_name(b).len());
        assert(n[0] == kind_name(b)[0]);
        assert(n[n.len() - 2] == kind_name(b)[n.len() - 2]);
    }
}

/// Cycling through the laws meets six different laws, that is each of them
/// once, and is back at the start after six steps.
pub proof fn lemma_selection_cycle(k: GuidanceKind)
    ensures
        kind_advance(k, 6) == k,
        forall|i: nat, j: nat|
            i < j < 6 ==> #[trigger] kind_advance(k, i) != #[trigger] kind_advance(k, j),
{
    let s = seq![
        kind_advance(k, 0),
        kind_advance(k, 1),
        kind_advance(k, 2),
        kind_advance(k, 3),
        kind_advance(k, 4),
        kind_advance(k, 5),
    ];
    assert(kind_advance(k, 0) == k);
    assert(kind_advance(k, 1) == kind_next(k));
    assert(kind_advance(k, 2) == kind_next(kind_next(k)));
    assert(kind_advance(k, 3) == kind_next(kind_next(kind_next(k))));
    assert(kind_advance(k, 4) == kind_next(kind_next(kind_next(kind_next(k)))));
    assert(kind_advance(k, 5) == kind_next(kind_next(kind_next(kind_next(kind_next(k))))));
    assert(kind_advance(k, 6) == kind_next(kind_advance(k, 5)));
    assert forall|i: nat, j: nat| i < j < 6 implies #[trigger] kind_advance(k, i)
        != #[trigger] kind_advance(k, j) by {
        assert(kind_advance(k, i) == s[i as int]);
        assert(kind_advance(k, j) == s[j as int]);
    }
}

} // verus!
