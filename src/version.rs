//! Concrete semantic versions and their precedence.
use std::cmp::Ordering;
use vstd::prelude::*;

verus! {

#[verifier::external_type_specification]
#[verifier::external_body]
pub struct ExSemverVersion(semver::Version);

/// An identifier in the pre-release or build metadata of a version.
#[derive(Clone, Debug, PartialEq, Eq)]
pub enum Identifier {
    Numeric(u64),
    AlphaNumeric(String),
}

/// Mathematical model of an `Identifier`.
pub ghost enum IdentifierView {
    Numeric(nat),
    AlphaNumeric(Seq<char>),
}

impl View for Identifier {
    type V = IdentifierView;

    open spec fn view(&self) -> IdentifierView {
        match self {
            Identifier::Numeric(n) => IdentifierView::Numeric(*n as nat),
            Identifier::AlphaNumeric(s) => IdentifierView::AlphaNumeric(s@),
        }
    }
}

/// A fully qualified version: `major.minor.patch`, with optional pre-release
/// and build identifiers.
#[derive(Clone, Debug)]
pub struct ConcreteVersion {
    pub major: u64,
    pub minor: u64,
    pub patch: u64,
    pub pre: Vec<Identifier>,
    pub build: Vec<Identifier>,
}

/// Mathematical model of a `ConcreteVersion`.
pub ghost struct VersionView {
    pub major: nat,
    pub minor: nat,
    pub patch: nat,
    pub pre: Seq<IdentifierView>,
    pub build: Seq<IdentifierView>,
}

pub open spec fn ids_view(ids: Seq<Identifier>) -> Seq<IdentifierView> {
    ids.map_values(|i: Identifier| i@)
}

impl View for ConcreteVersion {
    type V = VersionView;

    open spec fn view(&self) -> VersionView {
        VersionView {
            major: self.major as nat,
            minor: self.minor as nat,
            patch: self.patch as nat,
            pre: ids_view(self.pre@),
            build: ids_view(self.build@),
        }
    }
}

impl Identifier {
    /// A copy with the same view.
    pub fn copied(&self) -> (r: Identifier)
        ensures
            r@ == self@,
    {
        match self {
            Identifier::Numeric(n) => Identifier::Numeric(*n),
            Identifier::AlphaNumeric(s) => Identifier::AlphaNumeric(s.clone()),
        }
    }
}

fn copy_identifiers(ids: &Vec<Identifier>) -> (r: Vec<Identifier>)
    ensures
        ids_view(r@) == ids_view(ids@),
{
    let mut r: Vec<Identifier> = Vec::new();
    let mut i: usize = 0;
    while i < ids.len()
        invariant
            i <= ids.len(),
            r@.len() == i,
            forall|k: int| 0 <= k < i ==> #[trigger] r@[k]@ == ids@[k]@,
        decreases ids.len() - i,
    {
        r.push(ids[i].copied());
        i += 1;
    }
    assert(ids_view(r@) =~= ids_view(ids@));
    r
}

impl ConcreteVersion {
    /// A copy with the same view.
    pub fn copied(&self) -> (r: ConcreteVersion)
        ensures
            r@ == self@,
    {
        ConcreteVersion {
            major: self.major,
            minor: self.minor,
            patch: self.patch,
            pre: copy_identifiers(&self.pre),
            build: copy_identifiers(&self.build),
        }
    }

    /// A release version with no pre-release or build identifiers.
    pub fn new(major: u64, minor: u64, patch: u64) -> (r: ConcreteVersion)
        ensures
            r@.major == major,
            r@.minor == minor,
            r@.patch == patch,
            r@.pre.len() == 0,
            r@.build.len() == 0,
    {
        ConcreteVersion { major, minor, patch, pre: Vec::new(), build: Vec::new() }
    }

    /// True when the version carries pre-release identifiers.
    pub fn is_prerelease(&self) -> (r: bool)
        ensures
            r == (self@.pre.len() > 0),
    {
        self.pre.len() > 0
    }
}

/// Three-way comparison of natural numbers.
pub open spec fn cmp_nat(a: nat, b: nat) -> Ordering {
    if a < b {
        Ordering::Less
    } else if a > b {
        Ordering::Greater
    } else {
        Ordering::Equal
    }
}

/// Lexicographic comparison of character sequences by character code (the
/// order in which `String` compares its UTF-8 bytes).
pub open spec fn cmp_chars(a: Seq<char>, b: Seq<char>) -> Ordering
    decreases a.len(),
{
    if a.len() == 0 {
        if b.len() == 0 {
            Ordering::Equal
        } else {
            Ordering::Less
        }
    } else if b.len() == 0 {
        Ordering::Greater
    } else if a[0] < b[0] {
        Ordering::Less
    } else if a[0] > b[0] {
        Ordering::Greater
    } else {
        cmp_chars(a.drop_first(), b.drop_first())
    }
}

/// Identifier order: numeric identifiers sort before alphanumeric ones,
/// numbers compare by value and text compares lexicographically.
pub open spec fn cmp_identifier(a: IdentifierView, b: IdentifierView) -> Ordering {
    match (a, b) {
        (IdentifierView::Numeric(x), IdentifierView::Numeric(y)) => cmp_nat(x, y),
        (IdentifierView::Numeric(_), IdentifierView::AlphaNumeric(_)) => Ordering::Less,
        (IdentifierView::AlphaNumeric(_), IdentifierView::Numeric(_)) => Ordering::Greater,
        (IdentifierView::AlphaNumeric(s), IdentifierView::AlphaNumeric(t)) => cmp_chars(s, t),
    }
}

/// Lexicographic comparison of identifier lists.
pub open spec fn cmp_identifiers(a: Seq<IdentifierView>, b: Seq<IdentifierView>) -> Ordering
    decreases a.len(),
{
    if a.len() == 0 {
        if b.len() == 0 {
            Ordering::Equal
        } else {
            Ordering::Less
        }
    } else if b.len() == 0 {
        Ordering::Greater
    } else if a[0] != b[0] {
        cmp_identifier(a[0], b[0])
    } else {
        cmp_identifiers(a.drop_first(), b.drop_first())
    }
}

/// Pre-release order: a release outranks every pre-release; two pre-releases
/// compare their identifier lists.
pub open spec fn cmp_prerelease(a: Seq<IdentifierView>, b: Seq<IdentifierView>) -> Ordering {
    if a.len() == 0 && b.len() == 0 {
        Ordering::Equal
    } else if a.len() == 0 {
        Ordering::Greater
    } else if b.len() == 0 {
        Ordering::Less
    } else {
        cmp_identifiers(a, b)
    }
}

/// Semantic-version precedence: major, minor and patch numerically, then the
/// pre-release identifiers; build metadata is ignored.
pub open spec fn precedence(a: VersionView, b: VersionView) -> Ordering {
    if a.major != b.major {
        cmp_nat(a.major, b.major)
    } else if a.minor != b.minor {
        cmp_nat(a.minor, b.minor)
    } else if a.patch != b.patch {
        cmp_nat(a.patch, b.patch)
    } else {
        cmp_prerelease(a.pre, b.pre)
    }
}

/// `a` ranks no higher than `b`.
pub open spec fn ranks_at_most(a: VersionView, b: VersionView) -> bool {
    precedence(a, b) != Ordering::Greater
}

/// The comparison seen from the other side.
pub open spec fn flip(o: Ordering) -> Ordering {
    match o {
        Ordering::Less => Ordering::Greater,
        Ordering::Equal => Ordering::Equal,
        Ordering::Greater => Ordering::Less,
    }
}

proof fn lemma_cmp_chars_strict(a: Seq<char>, b: Seq<char>)
    ensures
        (cmp_chars(a, b) == Ordering::Equal) == (a == b),
        cmp_chars(b, a) == flip(cmp_chars(a, b)),
    decreases a.len(),
{
    if a.len() == 0 && b.len() == 0 {
        assert(a =~= b);
    }
    if a.len() > 0 && b.len() > 0 && a[0] == b[0] {
        lemma_cmp_chars_strict(a.drop_first(), b.drop_first());
        if a.drop_first() == b.drop_first() {
            assert(a =~= seq![a[0]] + a.drop_first());
            assert(b =~= seq![b[0]] + b.drop_first());
        }
    }
}

proof fn lemma_cmp_chars_trans(a: Seq<char>, b: Seq<char>, c: Seq<char>)
    requires
        cmp_chars(a, b) == Ordering::Less,
        cmp_chars(b, c) == Ordering::Less,
    ensures
        cmp_chars(a, c) == Ordering::Less,
    decreases a.len(),
{
    if a.len() > 0 && a[0] == b[0] && b[0] == c[0] {
        lemma_cmp_chars_trans(a.drop_first(), b.drop_first(), c.drop_first());
    }
}

proof fn lemma_cmp_identifier_strict(a: IdentifierView, b: IdentifierView)
    ensures
        (cmp_identifier(a, b) == Ordering::Equal) == (a == b),
        cmp_identifier(b, a) == flip(cmp_identifier(a, b)),
{
    match (a, b) {
        (IdentifierView::AlphaNumeric(s), IdentifierView::AlphaNumeric(t)) => {
            lemma_cmp_chars_strict(s, t);
        },
        _ => {},
    }
}

proof fn lemma_cmp_identifier_trans(a: IdentifierView, b: IdentifierView, c: IdentifierView)
    requires
        cmp_identifier(a, b) == Ordering::Less,
        cmp_identifier(b, c) == Ordering::Less,
    ensures
        cmp_identifier(a, c) == Ordering::Less,
{
    match (a, b, c) {
        (
            IdentifierView::AlphaNumeric(s),
            IdentifierView::AlphaNumeric(t),
            IdentifierView::AlphaNumeric(u),
        ) => {
            lemma_cmp_chars_trans(s, t, u);
        },
        _ => {},
    }
}

proof fn lemma_cmp_identifiers_strict(a: Seq<IdentifierView>, b: Seq<IdentifierView>)
    ensures
        (cmp_identifiers(a, b) == Ordering::Equal) == (a == b),
        cmp_identifiers(b, a) == flip(cmp_identifiers(a, b)),
    decreases a.len(),
{
    if a.len() == 0 && b.len() == 0 {
        assert(a =~= b);
    }
    if a.len() > 0 && b.len() > 0 {
        lemma_cmp_identifier_strict(a[0], b[0]);
        if a[0] == b[0] {
            lemma_cmp_identifiers_strict(a.drop_first(), b.drop_first());
            if a.drop_first() == b.drop_first() {
                assert(a =~= seq![a[0]] + a.drop_first());
                assert(b =~= seq![b[0]] + b.drop_first());
            }
        } else {
            assert(a != b);
        }
    }
}

proof fn lemma_cmp_identifiers_trans(
    a: Seq<IdentifierView>,
    b: Seq<IdentifierView>,
    c: Seq<IdentifierView>,
)
    requires
        cmp_identifiers(a, b) == Ordering::Less,
        cmp_identifiers(b, c) == Ordering::Less,
    ensures
        cmp_identifiers(a, c) == Ordering::Less,
    decreases a.len(),
{
    if a.len() > 0 && b.len() > 0 && c.len() > 0 {
        lemma_cmp_identifier_strict(a[0], b[0]);
        lemma_cmp_identifier_strict(b[0], c[0]);
        lemma_cmp_identifier_strict(a[0], c[0]);
        if a[0] == b[0] && b[0] == c[0] {
            lemma_cmp_identifiers_trans(a.drop_first(), b.drop_first(), c.drop_first());
        } else if a[0] != b[0] && b[0] != c[0] {
            lemma_cmp_identifier_trans(a[0], b[0], c[0]);
        }
    }
}

proof fn lemma_cmp_prerelease_strict(a: Seq<IdentifierView>, b: Seq<IdentifierView>)
    ensures
        (cmp_prerelease(a, b) == Ordering::Equal) == (a == b),
        cmp_prerelease(b, a) == flip(cmp_prerelease(a, b)),
{
    lemma_cmp_identifiers_strict(a, b);
}

proof fn lemma_cmp_prerelease_trans(
    a: Seq<IdentifierView>,
    b: Seq<IdentifierView>,
    c: Seq<IdentifierView>,
)
    requires
        cmp_prerelease(a, b) == Ordering::Less,
        cmp_prerelease(b, c) == Ordering::Less,
    ensures
        cmp_prerelease(a, c) == Ordering::Less,
{
    if a.len() > 0 && b.len() > 0 && c.len() > 0 {
        lemma_cmp_identifiers_trans(a, b, c);
    }
}

/// Precedence is antisymmetric: swapping the arguments flips the result.
pub proof fn lemma_precedence_flip(a: VersionView, b: VersionView)
    ensures
        precedence(b, a) == flip(precedence(a, b)),
{
    lemma_cmp_prerelease_strict(a.pre, b.pre);
}

/// Ranking no higher is transitive.
pub proof fn lemma_ranks_at_most_trans(a: VersionView, b: VersionView, c: VersionView)
    requires
        ranks_at_most(a, b),
        ranks_at_most(b, c),
    ensures
        ranks_at_most(a, c),
{
    lemma_cmp_prerelease_strict(a.pre, b.pre);
    lemma_cmp_prerelease_strict(b.pre, c.pre);
    lemma_cmp_prerelease_strict(a.pre, c.pre);
    if a.major == b.major && b.major == c.major && a.minor == b.minor && b.minor == c.minor
        && a.patch == b.patch && b.patch == c.patch {
        if cmp_prerelease(a.pre, b.pre) == Ordering::Less && cmp_prerelease(b.pre, c.pre)
            == Ordering::Less {
            lemma_cmp_prerelease_trans(a.pre, b.pre, c.pre);
        }
    }
}

/// Converts a version into `semver`'s own representation, field by field.
#[verifier::external_body]
pub(crate) fn to_semver(v: &ConcreteVersion) -> semver::Version {
    let id = |i: &Identifier| match i {
        Identifier::Numeric(n) => semver::Identifier::Numeric(*n),
        Identifier::AlphaNumeric(s) => semver::Identifier::AlphaNumeric(s.clone()),
    };
    semver::Version {
        major: v.major,
        minor: v.minor,
        patch: v.patch,
        pre: v.pre.iter().map(id).collect(),
        build: v.build.iter().map(id).collect(),
    }
}

/// Relies on `Ord for semver::Version` (semver 0.9): major, minor and patch
/// compare numerically; an empty pre-release list outranks a non-empty one;
/// otherwise the lists compare lexicographically with the derived order of
/// `semver::Identifier`; build metadata takes no part.
#[verifier::external_body]
pub fn compare(a: &ConcreteVersion, b: &ConcreteVersion) -> (r: Ordering)
    ensures
        r == precedence(a@, b@),
{
    to_semver(a).cmp(&to_semver(b))
}

} // verus!
