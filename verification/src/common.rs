//! Shared vocabulary of the crate: parse errors, scores, severity bands,
//! the metric trait, and verified helpers for vector-string work.

use vstd::prelude::*;
use vstd::string::*;

verus! {

/// Wire separator between a metric name and its value (`AV:N`).
pub const METRIC_DELIM: char = ':';

/// Wire separator between metrics of one vector (`AV:N/AC:L`).
pub const VECTOR_DELIM: char = '/';

/// Parsing error type.
#[derive(Clone, Copy, Debug, PartialEq, Eq, Structural)]
pub enum ParseError {
    MalformedVector,
    Missing,
    Duplicated,
    IncorrectValue,
}

/// Qualitative Severity Rating Scale.
#[derive(Clone, Copy, Debug, PartialEq, Eq, Hash, Structural)]
pub enum Severity {
    Negligible,
    Low,
    Medium,
    High,
    Critical,
}

/// The severity band of a score given in ten-thousandths of a point.
/// The bands are `None` `[0, 0.1)`, `Low` `[0.1, 4.0)`, `Medium` `[4.0, 7.0)`,
/// `High` `[7.0, 9.0)` and `Critical` `[9.0, ...)`.
pub open spec fn spec_severity_of_ten_thousandths(v: int) -> Severity {
    if v < 1000 {
        Severity::Negligible
    } else if v < 40000 {
        Severity::Low
    } else if v < 70000 {
        Severity::Medium
    } else if v < 90000 {
        Severity::High
    } else {
        Severity::Critical
    }
}

/// The severity band of a score given in tenths of a point.
pub open spec fn spec_severity_of_tenths(t: int) -> Severity {
    spec_severity_of_ten_thousandths(t * 1000)
}

/// Base/Temporal/Environmental CVSS score, held in tenths of a point:
/// `tenths == 61` stands for a score of 6.1.  Scores computed by this crate
/// lie in `0 ..= 100`.
#[derive(Clone, Copy, Debug, PartialEq, Eq, Hash, Structural)]
pub struct Score {
    pub tenths: u16,
}

impl Score {
    /// Build a score from tenths of a point.
    pub fn from_tenths(tenths: u16) -> (r: Score)
        ensures
            r.tenths == tenths,
    {
        Score { tenths }
    }

    /// The score in tenths of a point.
    pub fn tenths(self) -> (r: u16)
        ensures
            r == self.tenths,
    {
        self.tenths
    }

    /// The qualitative severity band of this score.
    pub fn severity(self) -> (r: Severity)
        ensures
            r == spec_severity_of_tenths(self.tenths as int),
    {
        Severity::from_score(self)
    }
}

impl Severity {
    /// The severity band of a score.
    pub fn from_score(s: Score) -> (r: Severity)
        ensures
            r == spec_severity_of_tenths(s.tenths as int),
    {
        if s.tenths < 1 {
            Severity::Negligible
        } else if s.tenths < 40 {
            Severity::Low
        } else if s.tenths < 70 {
            Severity::Medium
        } else if s.tenths < 90 {
            Severity::High
        } else {
            Severity::Critical
        }
    }

    /// The severity band of a score given in ten-thousandths of a point,
    /// for callers that hold scores at a finer resolution than tenths
    /// (`69999` stands for 6.9999).
    pub fn from_ten_thousandths(v: u64) -> (r: Severity)
        ensures
            r == spec_severity_of_ten_thousandths(v as int),
    {
        if v < 1000 {
            Severity::Negligible
        } else if v < 40000 {
            Severity::Low
        } else if v < 70000 {
            Severity::Medium
        } else if v < 90000 {
            Severity::High
        } else {
            Severity::Critical
        }
    }

    /// The display name of the band.
    pub fn as_str(&self) -> (r: &'static str)
        ensures
            r@ == self.spec_name(),
    {
        match self {
            Severity::Negligible => "None",
            Severity::Low => "Low",
            Severity::Medium => "Medium",
            Severity::High => "High",
            Severity::Critical => "Critical",
        }
    }

    /// The display name of the band, as a sequence of characters.
    pub open spec fn spec_name(self) -> Seq<char> {
        match self {
            Severity::Negligible => "None"@,
            Severity::Low => "Low"@,
            Severity::Medium => "Medium"@,
            Severity::High => "High"@,
            Severity::Critical => "Critical"@,
        }
    }
}

/// One metric of a CVSS vector: a closed enumeration with a wire token per
/// variant and an abbreviated metric name (`AV`, `MSI`, ...).
pub trait CvssMetric: Sized + Copy {
    /// The abbreviated metric name used in vector strings.
    spec fn spec_abbrev() -> Seq<char>;

    /// The wire token of this metric value.
    spec fn spec_token(self) -> Seq<char>;

    /// The metric value a wire token stands for, or `IncorrectValue` if the
    /// token belongs to no variant.
    spec fn spec_from_str(s: Seq<char>) -> Result<Self, ParseError>;

    /// The abbreviated metric name used in vector strings.
    fn abbreviated_form() -> (r: &'static str)
        ensures
            r@ == Self::spec_abbrev(),
    ;

    /// The wire token of this metric value.
    fn as_str(&self) -> (r: &'static str)
        ensures
            r@ == self.spec_token(),
    ;

    /// Parse a wire token.
    fn from_str(value: &str) -> (r: Result<Self, ParseError>)
        ensures
            r == Self::spec_from_str(value@),
    ;
}

/// A metric that may be absent from a vector string: it carries an explicit
/// "Not Defined" variant that stands for the omitted value.
pub trait Optional: CvssMetric {
    /// The "Not Defined" variant.
    spec fn spec_undefined() -> Self;

    /// The "Not Defined" variant.
    fn undefined() -> (r: Self)
        ensures
            r == Self::spec_undefined(),
    ;

    /// Whether this value is the "Not Defined" variant.
    fn is_undefined(&self) -> (r: bool)
        ensures
            r == (*self == Self::spec_undefined()),
    ;
}

// ---------------------------------------------------------------------------
// Verified string helpers.
// ---------------------------------------------------------------------------

/// Whether two string slices hold the same characters.
pub fn str_eq(a: &str, b: &str) -> (r: bool)
    ensures
        r == (a@ == b@),
{
    let na = a.unicode_len();
    let nb = b.unicode_len();
    if na != nb {
        return false;
    }
    let mut i: usize = 0;
    while i < na
        invariant
            na == a@.len(),
            na == b@.len(),
            0 <= i <= na,
            forall|j: int| 0 <= j < i ==> a@[j] == b@[j],
        decreases na - i,
    {
        if a.get_char(i) != b.get_char(i) {
            return false;
        }
        i += 1;
    }
    proof {
        assert(a@ =~= b@);
    }
    true
}

/// The index of the first occurrence of `d` in `s`, or `s.len()` if `d` does
/// not occur.
pub open spec fn spec_find(s: Seq<char>, d: char) -> int
    decreases s.len(),
{
    if s.len() == 0 {
        0
    } else if s[0] == d {
        0
    } else {
        1 + spec_find(s.skip(1), d)
    }
}

pub proof fn lemma_find_bounds(s: Seq<char>, d: char)
    ensures
        0 <= spec_find(s, d) <= s.len(),
    decreases s.len(),
{
    if s.len() != 0 && s[0] != d {
        lemma_find_bounds(s.skip(1), d);
    }
}

pub proof fn lemma_find_props(s: Seq<char>, d: char)
    ensures
        0 <= spec_find(s, d) <= s.len(),
        spec_find(s, d) < s.len() ==> s[spec_find(s, d)] == d,
        forall|j: int| 0 <= j < spec_find(s, d) ==> s[j] != d,
    decreases s.len(),
{
    lemma_find_bounds(s, d);
    if s.len() != 0 && s[0] != d {
        let t = s.skip(1);
        lemma_find_props(t, d);
        let i = spec_find(s, d);
        if i < s.len() {
            assert(s[i] == t[i - 1]);
        }
        assert forall|j: int| 0 <= j < i implies s[j] != d by {
            if j > 0 {
                assert(s[j] == t[j - 1]);
            }
        }
    }
}

pub proof fn lemma_find_at(s: Seq<char>, d: char, k: int)
    requires
        0 <= k < s.len(),
        s[k] == d,
        forall|j: int| 0 <= j < k ==> s[j] != d,
    ensures
        spec_find(s, d) == k,
    decreases s.len(),
{
    if k != 0 {
        let t = s.skip(1);
        assert(t[k - 1] == s[k]);
        assert forall|j: int| 0 <= j < k - 1 implies t[j] != d by {
            assert(t[j] == s[j + 1]);
        }
        lemma_find_at(t, d, k - 1);
    }
}

pub proof fn lemma_find_absent(s: Seq<char>, d: char)
    requires
        forall|j: int| 0 <= j < s.len() ==> s[j] != d,
    ensures
        spec_find(s, d) == s.len(),
    decreases s.len(),
{
    if s.len() != 0 {
        let t = s.skip(1);
        assert forall|j: int| 0 <= j < t.len() implies t[j] != d by {
            assert(t[j] == s[j + 1]);
        }
        lemma_find_absent(t, d);
    }
}

/// The index of the first occurrence of `d` in `s`, or the length of `s` if
/// `d` does not occur.
pub fn find_char(s: &str, d: char) -> (r: usize)
    ensures
        r as int == spec_find(s@, d),
        r <= s@.len(),
{
    let n = s.unicode_len();
    let mut i: usize = 0;
    while i < n
        invariant
            n == s@.len(),
            0 <= i <= n,
            forall|j: int| 0 <= j < i ==> s@[j] != d,
        decreases n - i,
    {
        if s.get_char(i) == d {
            proof {
                lemma_find_at(s@, d, i as int);
            }
            return i;
        }
        i += 1;
    }
    proof {
        lemma_find_absent(s@, d);
    }
    n
}

/// `s` split on the delimiter `d`: the parts between occurrences of `d`, in
/// order, delimiters dropped.  The empty string splits into one empty part.
pub open spec fn spec_split(s: Seq<char>, d: char) -> Seq<Seq<char>>
    decreases s.len(),
    via spec_split_decreases
{
    let i: int = spec_find(s, d);
    if i >= s.len() {
        seq![s]
    } else {
        seq![s.take(i)] + spec_split(s.skip(i + 1), d)
    }
}

#[via_fn]
proof fn spec_split_decreases(s: Seq<char>, d: char) {
    lemma_find_bounds(s, d);
}

/// Split `s` on the delimiter `d`.
pub fn split_on(s: &str, d: char) -> (r: Vec<String>)
    ensures
        r.deep_view() == spec_split(s@, d),
{
    let n = s.unicode_len();
    let mut parts: Vec<String> = Vec::new();
    let mut start: usize = 0;
    let mut i: usize = 0;
    proof {
        assert(s@.skip(0) =~= s@);
        assert(parts.deep_view() =~= Seq::<Seq<char>>::empty());
    }
    while i < n
        invariant
            n == s@.len(),
            0 <= start <= i <= n,
            forall|j: int| start <= j < i ==> s@[j] != d,
            spec_split(s@, d) == parts.deep_view() + spec_split(s@.skip(start as int), d),
        decreases n - i,
    {
        if s.get_char(i) == d {
            let ghost old_parts = parts.deep_view();
            let ghost tail = s@.skip(start as int);
            parts.push(String::from_str(s.substring_char(start, i)));
            proof {
                assert forall|j: int| 0 <= j < i - start implies tail[j] != d by {
                    assert(tail[j] == s@[start + j]);
                }
                assert(tail[i - start] == s@[i as int]);
                lemma_find_at(tail, d, i - start);
                assert(tail.take(i - start) =~= s@.subrange(start as int, i as int));
                assert(tail.skip(i - start + 1) =~= s@.skip(i + 1));
                assert(spec_split(tail, d) == seq![s@.subrange(start as int, i as int)]
                    + spec_split(s@.skip(i + 1), d));
                assert(parts.deep_view() =~= old_parts + seq![s@.subrange(start as int, i as int)]);
                assert(spec_split(s@, d) == parts.deep_view() + spec_split(s@.skip(i + 1), d));
            }
            start = i + 1;
        }
        i += 1;
    }
    let ghost old_parts = parts.deep_view();
    let ghost tail = s@.skip(start as int);
    parts.push(String::from_str(s.substring_char(start, n)));
    proof {
        assert forall|j: int| 0 <= j < tail.len() implies tail[j] != d by {
            assert(tail[j] == s@[start + j]);
        }
        lemma_find_absent(tail, d);
        assert(spec_split(tail, d) == seq![tail]);
        assert(tail =~= s@.subrange(start as int, n as int));
        assert(parts.deep_view() =~= old_parts + seq![tail]);
    }
    parts
}

/// `s` split at the first occurrence of `d`: the part before and the part
/// after, or `None` if `d` does not occur.
pub open spec fn spec_split_once(s: Seq<char>, d: char) -> Option<(Seq<char>, Seq<char>)> {
    let i: int = spec_find(s, d);
    if i >= s.len() {
        None
    } else {
        Some((s.take(i), s.skip(i + 1)))
    }
}

/// Split `s` at the first occurrence of `d`.
pub fn split_once_char(s: &str, d: char) -> (r: Option<(String, String)>)
    ensures
        match r {
            Some(p) => spec_split_once(s@, d) == Some((p.0@, p.1@)),
            None => spec_split_once(s@, d) is None,
        },
{
    let n = s.unicode_len();
    let i = find_char(s, d);
    proof {
        lemma_find_bounds(s@, d);
    }
    if i >= n {
        None
    } else {
        let head = String::from_str(s.substring_char(0, i));
        let tail = String::from_str(s.substring_char(i + 1, n));
        proof {
            assert(head@ =~= s@.take(i as int));
            assert(tail@ =~= s@.skip(i + 1));
        }
        Some((head, tail))
    }
}

// ---------------------------------------------------------------------------
// Vector-string assembly and generic metric-map parsing.
// ---------------------------------------------------------------------------

/// `acc` with `name:token` appended, preceded by the vector delimiter unless
/// `acc` is empty.
pub open spec fn spec_append_metric(acc: Seq<char>, name: Seq<char>, token: Seq<char>) -> Seq<
    char,
> {
    let sep: Seq<char> = if acc.len() == 0 {
        Seq::empty()
    } else {
        seq!['/']
    };
    acc + sep + name + seq![':'] + token
}

/// `acc` unchanged if `value` is "Not Defined", else `acc` with the metric
/// appended.
pub open spec fn spec_append_metric_optional<M: Optional>(
    acc: Seq<char>,
    name: Seq<char>,
    value: M,
) -> Seq<char> {
    if value == M::spec_undefined() {
        acc
    } else {
        spec_append_metric(acc, name, value.spec_token())
    }
}

/// Append a metric and its value to a vector string.
pub fn append_metric<M: CvssMetric>(vector: &mut String, metric: &str, value: &M)
    ensures
        final(vector)@ == spec_append_metric(old(vector)@, metric@, value.spec_token()),
{
    if !vector.as_str().is_empty() {
        vector.append("/");
    }
    vector.append(metric);
    vector.append(":");
    vector.append(value.as_str());
    proof {
        reveal_strlit("/");
        reveal_strlit(":");
        assert(vector@ =~= spec_append_metric(old(vector)@, metric@, value.spec_token()));
    }
}

/// Append a metric and its value to a vector string unless the value is the
/// "Not Defined" variant (for optional metrics).
pub fn append_metric_optional<M: CvssMetric + Optional>(
    vector: &mut String,
    metric: &str,
    value: &M,
)
    ensures
        final(vector)@ == spec_append_metric_optional(old(vector)@, metric@, *value),
{
    if !value.is_undefined() {
        append_metric(vector, metric, value);
    }
}

/// The first value associated with `key` in an association list, if any.
pub open spec fn spec_lookup(m: Seq<(Seq<char>, Seq<char>)>, key: Seq<char>) -> Option<Seq<char>>
    decreases m.len(),
{
    if m.len() == 0 {
        None
    } else if m[0].0 == key {
        Some(m[0].1)
    } else {
        spec_lookup(m.skip(1), key)
    }
}

/// The metric map a sequence of `name:value` parts stands for, built left to
/// right: a part without exactly one delimiter is malformed, and a repeated
/// metric name is a duplicate.
pub open spec fn spec_metric_map_rec(
    parts: Seq<Seq<char>>,
    acc: Seq<(Seq<char>, Seq<char>)>,
) -> Result<Seq<(Seq<char>, Seq<char>)>, ParseError>
    decreases parts.len(),
{
    if parts.len() == 0 {
        Ok(acc)
    } else {
        let pieces = spec_split(parts[0], ':');
        if pieces.len() != 2 {
            Err(ParseError::MalformedVector)
        } else if spec_lookup(acc, pieces[0]) is Some {
            Err(ParseError::Duplicated)
        } else {
            spec_metric_map_rec(parts.skip(1), acc.push((pieces[0], pieces[1])))
        }
    }
}

/// The metric map encoded by a whole vector string.
pub open spec fn spec_metric_map(s: Seq<char>) -> Result<
    Seq<(Seq<char>, Seq<char>)>,
    ParseError,
> {
    spec_metric_map_rec(spec_split(s, '/'), Seq::empty())
}

/// The first value associated with `key`, if any.
pub fn lookup_metric(m: &Vec<(String, String)>, key: &str) -> (r: Option<String>)
    ensures
        match r {
            Some(v) => spec_lookup(m.deep_view(), key@) == Some(v@),
            None => spec_lookup(m.deep_view(), key@) is None,
        },
{
    let n = m.len();
    let mut i: usize = 0;
    proof {
        assert(m.deep_view().skip(0) =~= m.deep_view());
    }
    while i < n
        invariant
            n == m.len(),
            0 <= i <= n,
            spec_lookup(m.deep_view(), key@) == spec_lookup(m.deep_view().skip(i as int), key@),
        decreases n - i,
    {
        let ghost pre = m.deep_view().skip(i as int);
        proof {
            assert(pre[0] == m.deep_view()[i as int]);
            assert(pre.skip(1) =~= m.deep_view().skip(i + 1));
        }
        if str_eq(m[i].0.as_str(), key) {
            return Some(m[i].1.clone());
        }
        i += 1;
    }
    proof {
        assert(m.deep_view().skip(n as int) =~= Seq::<(Seq<char>, Seq<char>)>::empty());
    }
    None
}

/// Parse a CVSS vector and return its metrics as an association list of
/// metric names to value tokens, in vector order.
pub fn parse_metrics(cvss_str: &str) -> (r: Result<Vec<(String, String)>, ParseError>)
    ensures
        match r {
            Ok(m) => spec_metric_map(cvss_str@) == Ok::<_, ParseError>(m.deep_view()),
            Err(e) => spec_metric_map(cvss_str@) == Err::<Seq<(Seq<char>, Seq<char>)>, _>(e),
        },
{
    let parts = split_on(cvss_str, '/');
    let n = parts.len();
    let mut parsed: Vec<(String, String)> = Vec::new();
    let mut i: usize = 0;
    proof {
        assert(parts.deep_view().skip(0) =~= parts.deep_view());
        assert(parsed.deep_view() =~= Seq::<(Seq<char>, Seq<char>)>::empty());
    }
    while i < n
        invariant
            n == parts.len(),
            0 <= i <= n,
            parts.deep_view() == spec_split(cvss_str@, '/'),
            spec_metric_map(cvss_str@) == spec_metric_map_rec(
                parts.deep_view().skip(i as int),
                parsed.deep_view(),
            ),
        decreases n - i,
    {
        let ghost rest = parts.deep_view().skip(i as int);
        proof {
            assert(rest[0] == parts.deep_view()[i as int]);
            assert(rest.skip(1) =~= parts.deep_view().skip(i + 1));
        }
        let pieces = split_on(parts[i].as_str(), ':');
        if pieces.len() != 2 {
            return Err(ParseError::MalformedVector);
        }
        if lookup_metric(&parsed, pieces[0].as_str()).is_some() {
            return Err(ParseError::Duplicated);
        }
        let name = pieces[0].clone();
        let value = pieces[1].clone();
        let ghost old_parsed = parsed.deep_view();
        parsed.push((name, value));
        proof {
            assert(parsed.deep_view() =~= old_parsed.push(
                (pieces.deep_view()[0], pieces.deep_view()[1]),
            ));
        }
        i += 1;
    }
    proof {
        assert(parts.deep_view().skip(n as int) =~= Seq::<Seq<char>>::empty());
    }
    Ok(parsed)
}

/// Splitting after appending a delimiter and a delimiter-free part appends
/// exactly that part to the split.
pub proof fn lemma_split_append(s: Seq<char>, a: Seq<char>, d: char)
    requires
        forall|j: int| 0 <= j < a.len() ==> a[j] != d,
    ensures
        spec_split(s + seq![d] + a, d) == spec_split(s, d).push(a),
    decreases s.len(),
{
    let t = s + seq![d] + a;
    let i: int = spec_find(s, d);
    lemma_find_props(s, d);
    if i >= s.len() {
        assert forall|j: int| 0 <= j < s.len() implies t[j] != d by {
            assert(t[j] == s[j]);
        }
        assert(t[s.len() as int] == d);
        lemma_find_at(t, d, s.len() as int);
        assert(t.take(s.len() as int) =~= s);
        assert(t.skip(s.len() as int + 1) =~= a);
        lemma_find_absent(a, d);
        assert(spec_split(a, d) == seq![a]);
        assert(spec_split(t, d) == seq![s] + seq![a]);
        assert(seq![s] + seq![a] =~= spec_split(s, d).push(a));
    } else {
        assert(s[i] == d);
        assert(t[i] == s[i]);
        assert forall|j: int| 0 <= j < i implies t[j] != d by {
            assert(t[j] == s[j]);
        }
        lemma_find_at(t, d, i);
        let s2 = s.skip(i + 1);
        assert(t.take(i) =~= s.take(i));
        assert(t.skip(i + 1) =~= s2 + seq![d] + a);
        lemma_split_append(s2, a, d);
        assert(spec_split(t, d) == seq![s.take(i)] + (spec_split(s2, d).push(a)));
        assert(seq![s.take(i)] + (spec_split(s2, d).push(a)) =~= (seq![s.take(i)] + spec_split(
            s2,
            d,
        )).push(a));
    }
}

/// Splitting a part made of a delimiter-free name, the delimiter, and a
/// value at the first delimiter recovers name and value.
pub proof fn lemma_split_once_append(name: Seq<char>, value: Seq<char>, d: char)
    requires
        forall|j: int| 0 <= j < name.len() ==> name[j] != d,
    ensures
        spec_split_once(name + seq![d] + value, d) == Some((name, value)),
{
    let t = name + seq![d] + value;
    assert forall|j: int| 0 <= j < name.len() implies t[j] != d by {
        assert(t[j] == name[j]);
    }
    assert(t[name.len() as int] == d);
    lemma_find_at(t, d, name.len() as int);
    assert(t.take(name.len() as int) =~= name);
    assert(t.skip(name.len() as int + 1) =~= value);
}

/// The single-part split of a delimiter-free string.
pub proof fn lemma_split_single(s: Seq<char>, d: char)
    requires
        forall|j: int| 0 <= j < s.len() ==> s[j] != d,
    ensures
        spec_split(s, d) == seq![s],
{
    lemma_find_absent(s, d);
}

/// A `name:token` metric part is free of the vector delimiter when its
/// pieces are.
pub proof fn lemma_metric_part_chars(name: Seq<char>, token: Seq<char>)
    requires
        forall|j: int| 0 <= j < name.len() ==> name[j] != '/' && name[j] != ':',
        forall|j: int| 0 <= j < token.len() ==> token[j] != '/',
    ensures
        forall|j: int|
            0 <= j < (name + seq![':'] + token).len() ==> (name + seq![':'] + token)[j] != '/',
{
    let p = name + seq![':'] + token;
    assert forall|j: int| 0 <= j < p.len() implies p[j] != '/' by {
        if j < name.len() {
            assert(p[j] == name[j]);
        } else if j == name.len() {
            assert(p[j] == ':');
        } else {
            assert(p[j] == token[j - name.len() - 1]);
        }
    }
}

/// Appending a metric to a nonempty vector string appends exactly one part
/// to its split.
pub proof fn lemma_append_metric_split(s: Seq<char>, name: Seq<char>, token: Seq<char>)
    requires
        s.len() > 0,
        forall|j: int| 0 <= j < name.len() ==> name[j] != '/' && name[j] != ':',
        forall|j: int| 0 <= j < token.len() ==> token[j] != '/',
    ensures
        spec_split(spec_append_metric(s, name, token), '/') == spec_split(s, '/').push(
            name + seq![':'] + token,
        ),
{
    lemma_metric_part_chars(name, token);
    assert(spec_append_metric(s, name, token) =~= s + seq!['/'] + (name + seq![':'] + token));
    lemma_split_append(s, name + seq![':'] + token, '/');
}

/// The first metric of a vector string makes a one-part split.
pub proof fn lemma_append_metric_first(name: Seq<char>, token: Seq<char>)
    requires
        forall|j: int| 0 <= j < name.len() ==> name[j] != '/' && name[j] != ':',
        forall|j: int| 0 <= j < token.len() ==> token[j] != '/',
    ensures
        spec_split(spec_append_metric(Seq::empty(), name, token), '/') == seq![
            name + seq![':'] + token,
        ],
{
    lemma_metric_part_chars(name, token);
    assert(spec_append_metric(Seq::empty(), name, token) =~= name + seq![':'] + token);
    lemma_split_single(name + seq![':'] + token, '/');
}

} // verus!
