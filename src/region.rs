use vstd::prelude::*;
use vstd::string::StrSliceExecFns;

verus! {

/// The canonical name of the known region that `s` denotes, if any.
pub uninterp spec fn region_name_of(s: Seq<char>) -> Option<Seq<char>>;

/// Relies on `rusoto_core::Region::from_str` (which matches `s`, ignoring case,
/// against rusoto's fixed table of regions) and on `Region::name` (the
/// canonical name of the region that was found).
#[verifier::external_body]
fn known_region_name(s: &str) -> (r: Option<String>)
    ensures
        match r {
            Some(n) => region_name_of(s@) == Some(n@),
            None => region_name_of(s@) is None,
        },
{
    <rusoto_core::Region as std::str::FromStr>::from_str(s).ok().map(|r| r.name().to_owned())
}

/// `s` without its leading `/` characters.
pub open spec fn strip_leading_slashes(s: Seq<char>) -> Seq<char>
    decreases s.len(),
{
    if s.len() > 0 && s[0] == '/' {
        strip_leading_slashes(s.drop_first())
    } else {
        s
    }
}

/// `s` without its trailing `/` characters.
pub open spec fn strip_trailing_slashes(s: Seq<char>) -> Seq<char>
    decreases s.len(),
{
    if s.len() > 0 && s.last() == '/' {
        strip_trailing_slashes(s.drop_last())
    } else {
        s
    }
}

/// An endpoint with every leading and trailing `/` removed.
pub open spec fn normalized_endpoint(s: Seq<char>) -> Seq<char> {
    strip_trailing_slashes(strip_leading_slashes(s))
}

/// Where requests go: a well-known region, or a named custom endpoint.
#[derive(Clone, Debug, PartialEq, Eq)]
pub enum RegionDescriptor {
    Named { name: String },
    Custom { name: String, endpoint: String },
}

/// The mathematical value of a `RegionDescriptor`.
pub enum RegionModel {
    Named(Seq<char>),
    Custom(Seq<char>, Seq<char>),
}

impl View for RegionDescriptor {
    type V = RegionModel;

    open spec fn view(&self) -> RegionModel {
        match self {
            RegionDescriptor::Named { name } => RegionModel::Named(name@),
            RegionDescriptor::Custom { name, endpoint } => RegionModel::Custom(name@, endpoint@),
        }
    }
}

/// A region string that names no known region.
#[derive(Clone, Debug, PartialEq, Eq)]
pub enum RegionError {
    InvalidRegion { input: String },
}

/// The outcome of a resolution as values: the descriptor, or the rejected input.
pub open spec fn outcome(r: Result<RegionDescriptor, RegionError>) -> Result<RegionModel, Seq<char>> {
    match r {
        Ok(d) => Ok(d@),
        Err(RegionError::InvalidRegion { input }) => Err(input@),
    }
}

/// What a region string gives, where `canonical` is the canonical name of the
/// known region that it denotes, if any: only a string that is itself that
/// canonical name is accepted, so matching is sensitive to case and format.
pub open spec fn decided(s: Seq<char>, canonical: Option<Seq<char>>) -> Result<RegionModel, Seq<char>> {
    if canonical == Some(s) {
        Ok(RegionModel::Named(s))
    } else {
        Err(s)
    }
}

/// What parsing a region string gives.
pub open spec fn parsed(s: Seq<char>) -> Result<RegionModel, Seq<char>> {
    decided(s, region_name_of(s))
}

/// The region that a user's region string and custom endpoint select, where
/// `default_name` is the name of the process's default region.
pub open spec fn resolved(
    user: Option<Seq<char>>,
    endpoint: Option<Seq<char>>,
    default_name: Seq<char>,
) -> Result<RegionModel, Seq<char>> {
    match (user, endpoint) {
        (Some(r), Some(e)) => Ok(RegionModel::Custom(r, normalized_endpoint(e))),
        (Some(r), None) => parsed(r),
        (None, Some(e)) => Ok(RegionModel::Custom(default_name, normalized_endpoint(e))),
        (None, None) => Ok(RegionModel::Named(default_name)),
    }
}

pub open spec fn opt_view(o: Option<String>) -> Option<Seq<char>> {
    match o {
        Some(s) => Some(s@),
        None => None,
    }
}

/// Removes every leading and trailing `/` from an endpoint: a trailing
/// separator would turn into a malformed request line downstream.
pub fn normalize_endpoint(s: &str) -> (r: String)
    ensures
        r@ == normalized_endpoint(s@),
{
    let n = s.unicode_len();
    let mut lo: usize = 0;
    assert(s@.subrange(0, n as int) =~= s@);
    while lo < n && s.get_char(lo) == '/'
        invariant
            n == s@.len(),
            lo <= n,
            strip_leading_slashes(s@) == strip_leading_slashes(s@.subrange(lo as int, n as int)),
        decreases n - lo,
    {
        assert(s@.subrange(lo as int, n as int).drop_first() =~= s@.subrange(lo + 1, n as int));
        lo = lo + 1;
    }
    let ghost front = s@.subrange(lo as int, n as int);
    assert(strip_leading_slashes(front) == front);
    let mut hi: usize = n;
    while hi > lo && s.get_char(hi - 1) == '/'
        invariant
            n == s@.len(),
            lo <= hi <= n,
            strip_trailing_slashes(front) == strip_trailing_slashes(s@.subrange(lo as int, hi as int)),
        decreases hi,
    {
        assert(s@.subrange(lo as int, hi as int).drop_last() =~= s@.subrange(lo as int, hi - 1));
        hi = hi - 1;
    }
    s.substring_char(lo, hi).to_owned()
}

/// Decides a region string given the canonical name of the known region that
/// it denotes, if any: the string is accepted only where it is that name.
pub fn region_from_lookup(r: &str, canonical: Option<String>) -> (res: Result<
    RegionDescriptor,
    RegionError,
>)
    ensures
        outcome(res) == decided(r@, opt_view(canonical)),
{
    let input = r.to_owned();
    match canonical {
        Some(name) => {
            if name == input {
                Ok(RegionDescriptor::Named { name: input })
            } else {
                Err(RegionError::InvalidRegion { input })
            }
        },
        None => Err(RegionError::InvalidRegion { input }),
    }
}

/// Parses a region string against the table of known regions, exactly as
/// written: it must be a region's canonical name.
pub fn parse_region(r: &str) -> (res: Result<RegionDescriptor, RegionError>)
    ensures
        outcome(res) == parsed(r@),
        res is Ok <==> region_name_of(r@) == Some(r@),
{
    region_from_lookup(r, known_region_name(r))
}

/// Resolves the region from the user's region string and custom endpoint,
/// given the name of the process's default region.
pub fn resolve_region(
    user_specified: Option<String>,
    custom_endpoint: Option<String>,
    default_name: String,
) -> (res: Result<RegionDescriptor, RegionError>)
    ensures
        outcome(res) == resolved(opt_view(user_specified), opt_view(custom_endpoint), default_name@),
{
    let endpoint = match custom_endpoint {
        Some(e) => Some(normalize_endpoint(e.as_str())),
        None => None,
    };
    match (user_specified, endpoint) {
        (Some(r), Some(e)) => Ok(RegionDescriptor::Custom { name: r, endpoint: e }),
        (Some(r), None) => parse_region(r.as_str()),
        (None, Some(e)) => Ok(RegionDescriptor::Custom { name: default_name, endpoint: e }),
        (None, None) => Ok(RegionDescriptor::Named { name: default_name }),
    }
}

/// Resolution is a function of its inputs: two resolutions of the same
/// region string, endpoint and default region give equal descriptors.
pub proof fn lemma_resolution_deterministic(
    user: Option<Seq<char>>,
    endpoint: Option<Seq<char>>,
    default_name: Seq<char>,
    first: Result<RegionDescriptor, RegionError>,
    second: Result<RegionDescriptor, RegionError>,
)
    requires
        outcome(first) == resolved(user, endpoint, default_name),
        outcome(second) == resolved(user, endpoint, default_name),
    ensures
        outcome(first) == outcome(second),
{
}

/// Endpoint normalization is idempotent, and leaves no `/` at either end.
pub proof fn lemma_normalized_endpoint(s: Seq<char>)
    ensures
        normalized_endpoint(normalized_endpoint(s)) == normalized_endpoint(s),
        normalized_endpoint(s).len() > 0 ==> normalized_endpoint(s)[0] != '/'
            && normalized_endpoint(s).last() != '/',
{
    let f = strip_leading_slashes(s);
    lemma_leading_stripped(s);
    lemma_trailing_stripped(f);
    let n = strip_trailing_slashes(f);
    if n.len() > 0 {
        assert(n[0] == f[0]);
    }
    assert(strip_leading_slashes(n) == n);
    assert(strip_trailing_slashes(n) == n);
}

proof fn lemma_leading_stripped(s: Seq<char>)
    ensures
        strip_leading_slashes(s).len() > 0 ==> strip_leading_slashes(s)[0] != '/',
    decreases s.len(),
{
    if s.len() > 0 && s[0] == '/' {
        lemma_leading_stripped(s.drop_first());
    }
}

proof fn lemma_trailing_stripped(s: Seq<char>)
    ensures
        strip_trailing_slashes(s).len() <= s.len(),
        strip_trailing_slashes(s) =~= s.subrange(0, strip_trailing_slashes(s).len() as int),
        strip_trailing_slashes(s).len() > 0 ==> strip_trailing_slashes(s).last() != '/',
    decreases s.len(),
{
    if s.len() > 0 && s.last() == '/' {
        lemma_trailing_stripped(s.drop_last());
    }
}

} // verus!
