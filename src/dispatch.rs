//! Which operation an API request asks for, and the problem when it asks for
//! none that exists.
use crate::api::{join_comma, Problem, BAD_REQUEST, METHOD_NOT_ALLOWED, NOT_FOUND};
use crate::hex::{hex_text, parse_hex32};
use crate::ids::{lemma_binary_id_ext, lemma_machine_id_ext, BinaryId, MachineId};
use crate::loader::CompiledBinary;
use crate::registry::ExecutorState;
use crate::text::{join_slash, lemma_split_slash_nonempty, split_slash, split_slash_exec, str_eq};
use vstd::prelude::*;
use vstd::string::*;
use vstd::utf8::encode_utf8;

verus! {

/// An operation of the API.
#[derive(Clone, Debug)]
pub enum Action {
    /// `GET /`: the host's public key and base domain.
    Root,
    /// `POST /binaries`: upload the body as a binary.
    UploadBinary,
    /// `GET /binaries/{id}`: the activations the binary exposes.
    DescribeBinary(BinaryId),
    /// `POST /binaries/{id}`: create a machine with the body as parameters.
    CreateMachine(BinaryId),
    /// `GET /machines/{id}`: the machine's binary and parameters.
    GetMachine(MachineId),
    /// `/machines/{id}/http`: redirect to `http/` so relative links work.
    RedirectToHttpRoot,
    /// `/machines/{id}/http/...`: hand the request, with this path and query,
    /// to the machine.
    MachineHttp { id: MachineId, path_and_query: String },
    /// `POST /machines/{id}/activate/{name}`: activate the machine.
    Activate { id: MachineId, name: String },
}

/// An operation, with its texts as character sequences.
pub enum ActionView {
    Root,
    UploadBinary,
    DescribeBinary(BinaryId),
    CreateMachine(BinaryId),
    GetMachine(MachineId),
    RedirectToHttpRoot,
    MachineHttp(MachineId, Seq<char>),
    Activate(MachineId, Seq<char>),
}

impl Action {
    pub open spec fn view(&self) -> ActionView {
        match self {
            Action::Root => ActionView::Root,
            Action::UploadBinary => ActionView::UploadBinary,
            Action::DescribeBinary(id) => ActionView::DescribeBinary(*id),
            Action::CreateMachine(id) => ActionView::CreateMachine(*id),
            Action::GetMachine(id) => ActionView::GetMachine(*id),
            Action::RedirectToHttpRoot => ActionView::RedirectToHttpRoot,
            Action::MachineHttp { id, path_and_query } => ActionView::MachineHttp(*id, path_and_query@),
            Action::Activate { id, name } => ActionView::Activate(*id, name@),
        }
    }
}

/// The binary id a path element names, if it is 64 hex digits.
pub open spec fn binary_id_of(element: Seq<char>) -> Option<BinaryId> {
    match parse_hex32(encode_utf8(element)) {
        Ok(b) => Some(choose|id: BinaryId| id.view() == b),
        Err(_) => None,
    }
}

/// The machine id a path element names, if it is 64 hex digits.
pub open spec fn machine_id_of(element: Seq<char>) -> Option<MachineId> {
    match parse_hex32(encode_utf8(element)) {
        Ok(b) => Some(choose|id: MachineId| id.view() == b),
        Err(_) => None,
    }
}

/// The path and query handed to a machine: the rest of the path after
/// `/machines/{id}/http`, and the query if there is one.
pub open spec fn machine_path(inner: Seq<Seq<char>>, query: Option<Seq<char>>) -> Seq<char> {
    seq!['/'] + join_slash(inner) + match query {
        Some(q) => seq!['?'] + q,
        None => Seq::empty(),
    }
}

/// A problem, with its texts as character sequences: the status, what the
/// client is told, and the methods an `Allow` header lists, if it has one.
pub struct ProblemView {
    pub status: u16,
    pub client_desc: Seq<char>,
    pub allow: Option<Seq<Seq<char>>>,
}

/// A path element that is not an id of the kind `kind`.
pub open spec fn invalid_element(element: Seq<char>, kind: Seq<char>) -> ProblemView {
    ProblemView {
        status: BAD_REQUEST,
        client_desc: "path element "@ + element + " is not a valid "@ + kind,
        allow: None,
    }
}

/// No binary has the id `id`.
pub open spec fn binary_missing(id: BinaryId) -> ProblemView {
    ProblemView { status: NOT_FOUND, client_desc: "binary "@ + hex_text(id.view()) + " not found"@, allow: None }
}

/// No machine has the id `id`.
pub open spec fn machine_missing(id: MachineId) -> ProblemView {
    ProblemView { status: NOT_FOUND, client_desc: "machine "@ + hex_text(id.view()) + " not found"@, allow: None }
}

/// Nothing is at `path`.
pub open spec fn path_missing(path: Seq<char>) -> ProblemView {
    ProblemView { status: NOT_FOUND, client_desc: path + " not found"@, allow: None }
}

/// `method` is not one of `allow` on `path`.
pub open spec fn not_allowed(method: Seq<char>, path: Seq<char>, allow: Seq<Seq<char>>) -> ProblemView {
    ProblemView {
        status: METHOD_NOT_ALLOWED,
        client_desc: "HTTP method "@ + method + " not supported on "@ + path,
        allow: Some(allow),
    }
}

/// `p` is the problem `v`: the same status and client text, no extra fields, and
/// an `Allow` header exactly when `v` lists methods.
pub open spec fn problem_is(p: Problem, v: ProblemView) -> bool {
    &&& p.status == v.status
    &&& p.client_desc@ == v.client_desc
    &&& p.extra_fields@.len() == 0
    &&& match v.allow {
        Some(a) => p.extra_headers@.len() == 1 && p.extra_headers@[0].0@ == "Allow"@
            && p.extra_headers@[0].1@ == join_comma(a),
        None => p.extra_headers@.len() == 0,
    }
}

/// What a request with `method` on `path` asks for, given the binaries and
/// machines present; or the problem.
pub open spec fn plan_of(
    binaries: Map<BinaryId, CompiledBinary>,
    machines: Map<MachineId, (BinaryId, Seq<u8>)>,
    method: Seq<char>,
    path: Seq<char>,
    query: Option<Seq<char>>,
) -> Result<ActionView, ProblemView> {
    let segs = split_slash(path).drop_first();
    if method == "GET"@ && segs == seq![Seq::<char>::empty()] {
        Ok(ActionView::Root)
    } else if method == "POST"@ && segs == seq!["binaries"@] {
        Ok(ActionView::UploadBinary)
    } else if segs.len() == 2 && segs[0] == "binaries"@ {
        match binary_id_of(segs[1]) {
            None => Err(invalid_element(segs[1], "BinaryId"@)),
            Some(id) => if !binaries.contains_key(id) {
                Err(binary_missing(id))
            } else if method == "GET"@ {
                Ok(ActionView::DescribeBinary(id))
            } else if method == "POST"@ {
                Ok(ActionView::CreateMachine(id))
            } else {
                Err(not_allowed(method, path, seq!["POST"@, "GET"@]))
            },
        }
    } else if segs.len() >= 2 && segs[0] == "machines"@ {
        match machine_id_of(segs[1]) {
            None => Err(invalid_element(segs[1], "MachineId"@)),
            Some(id) => if segs.len() == 2 {
                if method != "GET"@ {
                    Err(not_allowed(method, path, seq!["GET"@]))
                } else if machines.contains_key(id) {
                    Ok(ActionView::GetMachine(id))
                } else {
                    Err(machine_missing(id))
                }
            } else if segs[2] == "http"@ {
                if segs.len() == 3 {
                    Ok(ActionView::RedirectToHttpRoot)
                } else if machines.contains_key(id) {
                    Ok(ActionView::MachineHttp(id, machine_path(segs.subrange(3, segs.len() as int), query)))
                } else {
                    Err(machine_missing(id))
                }
            } else if segs.len() == 4 && segs[2] == "activate"@ {
                if !machines.contains_key(id) {
                    Err(machine_missing(id))
                } else if method == "POST"@ {
                    Ok(ActionView::Activate(id, segs[3]))
                } else {
                    Err(not_allowed(method, path, seq!["POST"@]))
                }
            } else {
                Err(path_missing(path))
            },
        }
    } else if segs == seq!["machines"@] {
        Err(not_allowed(method, path, Seq::empty()))
    } else {
        Err(path_missing(path))
    }
}

proof fn lemma_singleton(s: Seq<Seq<char>>, x: Seq<char>)
    ensures
        (s == seq![x]) <==> (s.len() == 1 && s[0] == x),
{
    if s.len() == 1 && s[0] == x {
        assert(s =~= seq![x]);
    }
}

/// The path and query for a machine: `/`, the pieces from `from` on joined
/// with `/`, then `?` and the query if there is one.
fn build_machine_path(pieces: &Vec<&str>, from: usize, query: Option<&str>) -> (r: String)
    requires
        from <= pieces@.len(),
    ensures
        r@ == machine_path(
            pieces@.map_values(|p: &str| p@).subrange(from as int, pieces@.len() as int),
            match query {
                Some(q) => Some(q@),
                None => None,
            },
        ),
{
    let ghost all = pieces@.map_values(|p: &str| p@);
    proof {
        reveal_strlit("/");
        reveal_strlit("?");
    }
    let mut out = String::from_str("/");
    let mut k: usize = from;
    while k < pieces.len()
        invariant
            all == pieces@.map_values(|p: &str| p@),
            from <= k <= pieces@.len(),
            out@ == seq!['/'] + join_slash(all.subrange(from as int, k as int)),
        decreases pieces@.len() - k,
    {
        assert(all.subrange(from as int, k + 1).drop_last() =~= all.subrange(from as int, k as int));
        assert(all.subrange(from as int, k + 1).last() == pieces@[k as int]@);
        if k == from {
            assert(all.subrange(from as int, k + 1) =~= seq![pieces@[k as int]@]);
        }
        let ghost before = out@;
        proof {
            reveal_strlit("/");
            assert("/"@ =~= seq!['/']);
        }
        if k > from {
            out.append("/");
            assert(out@ =~= before + seq!['/']);
        }
        out.append(pieces[k]);
        assert(all.subrange(from as int, k as int).len() == 0 ==> join_slash(all.subrange(from as int, k as int)) =~= Seq::<char>::empty());
        assert(out@ =~= seq!['/'] + join_slash(all.subrange(from as int, k + 1)));
        k = k + 1;
    }
    if let Some(q) = query {
        out.append("?");
        out.append(q);
    }
    out
}

/// Decides which operation a request asks for: `method` and `path` are the
/// request's, `query` its query string if it has one.
pub fn plan_request(registry: &ExecutorState, method: &str, path: &str, query: Option<&str>) -> (r: Result<Action, Problem>)
    requires
        registry.wf(),
    ensures
        match plan_of(registry.binaries(), registry.machines(), method@, path@, match query {
            Some(q) => Some(q@),
            None => None,
        }) {
            Ok(v) => r is Ok && r->Ok_0.view() == v,
            Err(v) => r is Err && problem_is(r->Err_0, v),
        },
{
    let all = split_slash_exec(path);
    let ghost allv = all@.map_values(|p: &str| p@);
    let ghost segs = split_slash(path@).drop_first();
    proof {
        lemma_split_slash_nonempty(path@);
        reveal_strlit("");
        reveal_strlit("binaries");
        reveal_strlit("machines");
        reveal_strlit("http");
        reveal_strlit("activate");
        assert(""@ =~= Seq::<char>::empty());
        assert(segs =~= allv.drop_first());
        assert(forall|k: int| 0 <= k < segs.len() ==> #[trigger] segs[k] == all@[k + 1]@);
        lemma_singleton(segs, Seq::<char>::empty());
        lemma_singleton(segs, "binaries"@);
        lemma_singleton(segs, "machines"@);
        if segs.len() >= 1 {
            assert(segs[0] == all@[1]@);
        }
    }
    let n: usize = all.len() - 1;
    assert(segs.len() == n);
    let is_get = str_eq(method, "GET");
    let is_post = str_eq(method, "POST");
    if n == 1 && str_eq(all[1], "") {
        assert(segs =~= seq![Seq::<char>::empty()]);
        if is_get {
            return Ok(Action::Root);
        }
    }
    if n == 1 && str_eq(all[1], "binaries") {
        assert(segs =~= seq!["binaries"@]);
        if is_post {
            return Ok(Action::UploadBinary);
        }
    }
    if n == 2 && str_eq(all[1], "binaries") {
        let id = match BinaryId::from_str(all[2]) {
            Ok(id) => id,
            Err(_) => {
                return Err(Problem::invalid_path_element(
                    String::from_str("invalid binary id"), all[2], "BinaryId"));
            },
        };
        proof {
            let other = binary_id_of(segs[1])->Some_0;
            lemma_binary_id_ext(other, id);
        }
        if registry.get_binary(id).is_none() {
            return Err(Problem::binary_not_found(id));
        }
        if is_get {
            return Ok(Action::DescribeBinary(id));
        }
        if is_post {
            return Ok(Action::CreateMachine(id));
        }
        let allowed: [&str; 2] = ["POST", "GET"];
        let allowed = allowed.as_slice();
        assert(allowed@.map_values(|a: &str| a@) =~= seq!["POST"@, "GET"@]);
        return Err(Problem::method_not_allowed(path, method, allowed));
    }
    if n >= 2 && str_eq(all[1], "machines") {
        let id = match MachineId::from_str(all[2]) {
            Ok(id) => id,
            Err(_) => {
                return Err(Problem::invalid_path_element(
                    String::from_str("invalid machine id"), all[2], "MachineId"));
            },
        };
        proof {
            let other = machine_id_of(segs[1])->Some_0;
            lemma_machine_id_ext(other, id);
        }
        let exists = registry.get_machine(id).is_some();
        if n == 2 {
            if !is_get {
                return Err(Problem::method_not_allowed(path, method, &["GET"]));
            }
            if exists {
                return Ok(Action::GetMachine(id));
            }
            return Err(Problem::machine_not_found(id));
        }
        if str_eq(all[3], "http") {
            if n == 3 {
                return Ok(Action::RedirectToHttpRoot);
            }
            if !exists {
                return Err(Problem::machine_not_found(id));
            }
            let path_and_query = build_machine_path(&all, 4, query);
            assert(segs.subrange(3, segs.len() as int) =~= allv.subrange(4, allv.len() as int));
            return Ok(Action::MachineHttp { id, path_and_query });
        }
        if n == 4 && str_eq(all[3], "activate") {
            if !exists {
                return Err(Problem::machine_not_found(id));
            }
            if is_post {
                return Ok(Action::Activate { id, name: String::from_str(all[4]) });
            }
            return Err(Problem::method_not_allowed(path, method, &["POST"]));
        }
        return Err(Problem::not_found(path));
    }
    if n == 1 && str_eq(all[1], "machines") {
        assert(segs =~= seq!["machines"@]);
        return Err(Problem::method_not_allowed(path, method, &[]));
    }
    Err(Problem::not_found(path))
}

} // verus!
