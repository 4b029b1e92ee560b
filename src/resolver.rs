//! Classifies an inbound request by its host name: the platform's own API, a
//! machine, or neither.
use crate::host_header::{label_id, parse_host_header_label_for_machine};
use crate::ids::MachineId;
use crate::text::lower;
use hickory_resolver::TryParseIp;
use vstd::prelude::*;
use vstd::string::*;

verus! {

/// Name for how `hickory_resolver::Name::from_str` reads a text: the labels of
/// the name, first label first, or nothing.
pub uninterp spec fn name_labels(s: Seq<char>) -> Option<Seq<Seq<char>>>;

/// Relies on `hickory_resolver::Name::from_str` and `Name::iter`: the labels of
/// the parsed name; the outcome depends on the text alone.
#[verifier::external_body]
fn parse_name(s: &str) -> (r: Option<Vec<String>>)
    ensures
        match r {
            Some(v) => name_labels(s@) == Some(v@.map_values(|l: String| l@)),
            None => name_labels(s@) is None,
        },
{
    <hickory_resolver::Name as std::str::FromStr>::from_str(s).ok().map(
        |n| n.iter().map(|l| String::from_utf8_lossy(l).into_owned()).collect(),
    )
}

/// Name for whether hickory reads a text as an IPv4 or IPv6 address.
pub uninterp spec fn is_ip_literal(s: Seq<char>) -> bool;

/// Relies on `hickory_resolver::TryParseIp::try_parse_ip` for `str`: whether the
/// text is an IP address.
#[verifier::external_body]
fn parses_as_ip(s: &str) -> (r: bool)
    ensures
        r == is_ip_literal(s@),
{
    s.try_parse_ip().is_some()
}

/// Two labels are equal ignoring ASCII case.
pub open spec fn label_eq(a: Seq<char>, b: Seq<char>) -> bool {
    a.len() == b.len() && forall|i: int| 0 <= i < a.len() ==> lower(#[trigger] a[i]) == lower(b[i])
}

/// Two names are equal ignoring ASCII case, label by label.
pub open spec fn name_eq(a: Seq<Seq<char>>, b: Seq<Seq<char>>) -> bool {
    a.len() == b.len() && forall|i: int| 0 <= i < a.len() ==> label_eq(#[trigger] a[i], b[i])
}

/// The name is `localhost` or a name under it.
pub open spec fn is_localhost(n: Seq<Seq<char>>) -> bool {
    n.len() >= 1 && label_eq(n.last(), seq!['l', 'o', 'c', 'a', 'l', 'h', 'o', 's', 't'])
}

/// The first label of a name, or the empty label for the root.
pub open spec fn first_label(n: Seq<Seq<char>>) -> Seq<char> {
    if n.len() == 0 {
        Seq::empty()
    } else {
        n[0]
    }
}

/// The machine that a name addresses under `base`: its first label is a
/// machine label and the other labels are the base domain.
pub open spec fn machine_of_name(n: Seq<Seq<char>>, base: Seq<Seq<char>>) -> Option<MachineId> {
    if label_id(first_label(n)) is Some && n.len() >= 1 && name_eq(n.drop_first(), base) {
        label_id(first_label(n))
    } else {
        None
    }
}

/// The machine that a name addresses, when machines are addressed under `base`.
pub open spec fn machine_under(n: Seq<Seq<char>>, base: Option<Seq<Seq<char>>>) -> Option<MachineId> {
    match base {
        Some(b) => machine_of_name(n, b),
        None => None,
    }
}

/// The machine addressed by the first of the CNAME targets `ts` that addresses
/// one; `Unknown` if none does.
pub open spec fn first_machine(ts: Seq<Seq<Seq<char>>>, base: Option<Seq<Seq<char>>>) -> Resolution
    decreases ts.len(),
{
    if ts.len() == 0 {
        Resolution::Unknown
    } else {
        match machine_under(ts[0], base) {
            Some(id) => Resolution::Machine(id),
            None => first_machine(ts.drop_first(), base),
        }
    }
}

/// A domain name as its labels, first label first.
#[derive(Clone, Debug)]
pub struct DomainName {
    pub labels: Vec<String>,
}

impl DomainName {
    pub open spec fn view(&self) -> Seq<Seq<char>> {
        self.labels@.map_values(|l: String| l@)
    }

    /// Parses a domain name from text.
    pub fn parse(text: &str) -> (r: Option<DomainName>)
        ensures
            match r {
                Some(n) => name_labels(text@) == Some(n.view()),
                None => name_labels(text@) is None,
            },
    {
        match parse_name(text) {
            Some(labels) => Some(DomainName { labels }),
            None => None,
        }
    }
}

/// Whether two labels are equal ignoring ASCII case.
fn same_label(a: &str, b: &str) -> (r: bool)
    ensures
        r == label_eq(a@, b@),
{
    let n = a.unicode_len();
    if n != b.unicode_len() {
        return false;
    }
    let mut i: usize = 0;
    while i < n
        invariant
            n == a@.len(),
            a@.len() == b@.len(),
            i <= n,
            forall|k: int| 0 <= k < i ==> lower(#[trigger] a@[k]) == lower(b@[k]),
        decreases n - i,
    {
        let x = a.get_char(i);
        let y = b.get_char(i);
        let lx = if 'A' <= x && x <= 'Z' { ((x as u32) + 32) as u8 as char } else { x };
        let ly = if 'A' <= y && y <= 'Z' { ((y as u32) + 32) as u8 as char } else { y };
        assert(lx == lower(x) && ly == lower(y));
        if lx != ly {
            return false;
        }
        i = i + 1;
    }
    true
}

/// Whether two names are equal ignoring ASCII case.
fn same_name(a: &[String], b: &[String]) -> (r: bool)
    ensures
        r == name_eq(a@.map_values(|l: String| l@), b@.map_values(|l: String| l@)),
{
    let ghost va = a@.map_values(|l: String| l@);
    let ghost vb = b@.map_values(|l: String| l@);
    if a.len() != b.len() {
        return false;
    }
    let mut i: usize = 0;
    while i < a.len()
        invariant
            a@.len() == b@.len(),
            va == a@.map_values(|l: String| l@),
            vb == b@.map_values(|l: String| l@),
            i <= a@.len(),
            forall|k: int| 0 <= k < i ==> label_eq(#[trigger] va[k], vb[k]),
        decreases a@.len() - i,
    {
        assert(va[i as int] == a@[i as int]@ && vb[i as int] == b@[i as int]@);
        if !same_label(a[i].as_str(), b[i].as_str()) {
            return false;
        }
        i = i + 1;
    }
    true
}

/// How a host name was classified.
#[derive(Clone, Copy, Debug)]
pub enum Resolution {
    Api,
    Machine(MachineId),
    Unknown,
}

/// The outcome of the checks that need no network: a classification, or the
/// name whose CNAME records decide.
#[derive(Clone, Debug)]
pub enum HostStep {
    Resolved(Resolution),
    LookupCname(DomainName),
}

impl HostStep {
    pub open spec fn view(&self) -> HostStepView {
        match self {
            HostStep::Resolved(r) => HostStepView::Resolved(*r),
            HostStep::LookupCname(n) => HostStepView::LookupCname(n.view()),
        }
    }
}

/// A classification step, with the name to look up as labels.
pub enum HostStepView {
    Resolved(Resolution),
    LookupCname(Seq<Seq<char>>),
}

/// The name is one of `passthrough`.
pub open spec fn in_passthrough(n: Seq<Seq<char>>, passthrough: Seq<Seq<Seq<char>>>) -> bool {
    exists|i: int| 0 <= i < passthrough.len() && name_eq(n, #[trigger] passthrough[i])
}

/// The classification of a Host header without the network: machines are
/// addressed under `base` (none: everything is the API), `passthrough` names are
/// the API, `host` is the header as text (none: it is not text), and
/// `is_socket_address` tells whether it is an `ip:port` pair.
pub open spec fn host_step(
    base: Option<Seq<Seq<char>>>,
    passthrough: Seq<Seq<Seq<char>>>,
    host: Option<Seq<char>>,
    is_socket_address: bool,
) -> HostStepView {
    match base {
        None => HostStepView::Resolved(Resolution::Api),
        Some(b) => match host {
            None => HostStepView::Resolved(Resolution::Unknown),
            Some(h) => if is_socket_address || is_ip_literal(h) {
                HostStepView::Resolved(Resolution::Api)
            } else {
                match name_labels(h) {
                    None => HostStepView::Resolved(Resolution::Unknown),
                    Some(n) => if is_localhost(n) || name_eq(n, b) || in_passthrough(n, passthrough) {
                        HostStepView::Resolved(Resolution::Api)
                    } else if machine_of_name(n, b) is Some {
                        HostStepView::Resolved(Resolution::Machine(machine_of_name(n, b)->Some_0))
                    } else {
                        HostStepView::LookupCname(n)
                    },
                }
            },
        },
    }
}

/// What a CNAME lookup returned.
#[derive(Clone, Debug)]
pub enum CnameLookup {
    /// The targets of the CNAME records found.
    Found(Vec<DomainName>),
    /// The name has no such record.
    NoRecords,
    /// The lookup failed otherwise.
    Failed(String),
}

/// A lookup failure other than the absence of records.
#[derive(Clone, Debug)]
pub struct ResolveError {
    pub message: String,
}

/// Decides which host names address the API and which address machines.
#[derive(Clone, Debug)]
pub struct Resolver {
    base_domain: Option<DomainName>,
    passthrough: Vec<DomainName>,
}

impl Resolver {
    pub closed spec fn spec_base_domain(&self) -> Option<Seq<Seq<char>>> {
        match self.base_domain {
            Some(n) => Some(n.view()),
            None => None,
        }
    }

    pub closed spec fn spec_passthrough(&self) -> Seq<Seq<Seq<char>>> {
        self.passthrough@.map_values(|n: DomainName| n.view())
    }

    /// A resolver for machines under `base_domain` (none: every request is for the
    /// API); names in `passthrough` always address the API.
    pub fn new(base_domain: Option<DomainName>, passthrough: Vec<DomainName>) -> (r: Resolver)
        ensures
            r.spec_base_domain() == match base_domain {
                Some(n) => Some(n.view()),
                None => None::<Seq<Seq<char>>>,
            },
            r.spec_passthrough() == passthrough@.map_values(|n: DomainName| n.view()),
    {
        Resolver { base_domain, passthrough }
    }

    /// The domain under which machines are addressed.
    pub fn base_domain(&self) -> (r: Option<&DomainName>)
        ensures
            match r {
                Some(n) => self.spec_base_domain() == Some(n.view()),
                None => self.spec_base_domain() is None,
            },
    {
        match &self.base_domain {
            Some(n) => Some(n),
            None => None,
        }
    }

    /// The machine that `name` addresses, if any.
    pub fn matches_machine(&self, name: &DomainName) -> (r: Option<MachineId>)
        ensures
            r == match self.spec_base_domain() {
                Some(base) => machine_of_name(name.view(), base),
                None => None,
            },
    {
        let base = match &self.base_domain {
            Some(b) => b,
            None => return None,
        };
        let labels = &name.labels;
        let first: &str = if labels.len() == 0 { "" } else { labels[0].as_str() };
        proof { reveal_strlit(""); }
        assert(first@ == first_label(name.view()));
        let id = match parse_host_header_label_for_machine(first) {
            Some(id) => id,
            None => return None,
        };
        if labels.len() == 0 {
            return None;
        }
        let rest = labels.as_slice().split_at(1).1;
        assert(rest@.map_values(|l: String| l@) =~= name.view().drop_first());
        if same_name(rest, base.labels.as_slice()) {
            Some(id)
        } else {
            None
        }
    }

    fn is_passthrough(&self, name: &DomainName) -> (r: bool)
        ensures
            r == exists|i: int| 0 <= i < self.spec_passthrough().len()
                && name_eq(name.view(), #[trigger] self.spec_passthrough()[i]),
    {
        let mut i: usize = 0;
        while i < self.passthrough.len()
            invariant
                i <= self.passthrough@.len(),
                forall|k: int| 0 <= k < i ==> !name_eq(name.view(), #[trigger] self.spec_passthrough()[k]),
            decreases self.passthrough@.len() - i,
        {
            assert(self.spec_passthrough()[i as int] == self.passthrough@[i as int].view());
            if same_name(name.labels.as_slice(), self.passthrough[i].labels.as_slice()) {
                assert(name_eq(name.view(), self.spec_passthrough()[i as int]));
                return true;
            }
            i = i + 1;
        }
        false
    }

    /// Classifies a request by its Host header, as far as that can be done without
    /// the network. `host` is the header as text (`None`: it is not text), and
    /// `is_socket_address` tells whether that text is an `ip:port` pair.
    pub fn resolve_host(&self, host: Option<&str>, is_socket_address: bool) -> (r: HostStep)
        ensures
            r.view() == host_step(self.spec_base_domain(), self.spec_passthrough(), match host {
                Some(h) => Some(h@),
                None => None,
            }, is_socket_address),
    {
        let base = match &self.base_domain {
            Some(b) => b,
            None => return HostStep::Resolved(Resolution::Api),
        };
        let text = match host {
            Some(t) => t,
            None => return HostStep::Resolved(Resolution::Unknown),
        };
        if is_socket_address || parses_as_ip(text) {
            return HostStep::Resolved(Resolution::Api);
        }
        let name = match DomainName::parse(text) {
            Some(n) => n,
            None => return HostStep::Resolved(Resolution::Unknown),
        };
        if self.is_localhost(&name) || self.is_passthrough(&name)
            || same_name(name.labels.as_slice(), base.labels.as_slice()) {
            return HostStep::Resolved(Resolution::Api);
        }
        match self.matches_machine(&name) {
            Some(id) => HostStep::Resolved(Resolution::Machine(id)),
            None => HostStep::LookupCname(name),
        }
    }

    fn is_localhost(&self, name: &DomainName) -> (r: bool)
        ensures
            r == is_localhost(name.view()),
    {
        let n = name.labels.len();
        if n == 0 {
            return false;
        }
        proof { reveal_strlit("localhost"); }
        assert(name.view().last() == name.labels@[n - 1]@);
        same_label(name.labels[n - 1].as_str(), "localhost")
    }

    /// Finishes a classification from the CNAME records of the host name: the
    /// first target that addresses a machine decides; no records, or none that
    /// addresses a machine, is `Unknown`; a failed lookup is an error.
    pub fn resolve_cname(&self, lookup: CnameLookup) -> (r: Result<Resolution, ResolveError>)
        ensures
            match lookup {
                CnameLookup::Found(ts) => r == Ok::<Resolution, ResolveError>(
                    first_machine(ts@.map_values(|n: DomainName| n.view()), self.spec_base_domain())),
                CnameLookup::NoRecords => r == Ok::<Resolution, ResolveError>(Resolution::Unknown),
                CnameLookup::Failed(m) => r matches Err(e) && e.message == m,
            },
    {
        match lookup {
            CnameLookup::Found(targets) => Ok(self.first_machine_of(&targets)),
            CnameLookup::NoRecords => Ok(Resolution::Unknown),
            CnameLookup::Failed(message) => Err(ResolveError { message }),
        }
    }

    fn first_machine_of(&self, targets: &Vec<DomainName>) -> (r: Resolution)
        ensures
            r == first_machine(targets@.map_values(|n: DomainName| n.view()), self.spec_base_domain()),
    {
        let ghost all = targets@.map_values(|n: DomainName| n.view());
        let mut i: usize = 0;
        assert(all.subrange(0, all.len() as int) =~= all);
        while i < targets.len()
            invariant
                i <= targets@.len(),
                all == targets@.map_values(|n: DomainName| n.view()),
                first_machine(all, self.spec_base_domain())
                    == first_machine(all.subrange(i as int, all.len() as int), self.spec_base_domain()),
            decreases targets@.len() - i,
        {
            let ghost rest = all.subrange(i as int, all.len() as int);
            assert(rest[0] == targets@[i as int].view());
            assert(rest.drop_first() =~= all.subrange(i + 1, all.len() as int));
            let found = self.matches_machine(&targets[i]);
            assert(found == machine_under(rest[0], self.spec_base_domain()));
            if let Some(id) = found {
                assert(first_machine(rest, self.spec_base_domain()) == Resolution::Machine(id));
                assert(first_machine(all, self.spec_base_domain()) == Resolution::Machine(id));
                return Resolution::Machine(id);
            }
            i = i + 1;
        }
        assert(all.subrange(i as int, all.len() as int).len() == 0);
        Resolution::Unknown
    }
}

} // verus!
