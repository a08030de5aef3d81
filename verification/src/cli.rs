//! The command line of the workspace client: which request its arguments
//! ask for. Talking to the daemon and printing are the caller's.
use vstd::prelude::*;
use vstd::string::*;
use crate::error::{Error, NumberProblem};
use crate::model::{
    Action, CollectWorkspace, LeaseWorkspace, ProjectSpec, ProvisionWorkspace, PutProject,
    RegisterRepository, ReleaseWorkspace, Repository, RepositoryInput, WorkspaceCommand,
};
use crate::seqs::{views, is_first, first_index, lemma_first_index_found, lemma_first_index_none};

verus! {

pub open spec fn is_digit(c: char) -> bool {
    '0' <= c && c <= '9'
}

pub open spec fn digit_value(c: char) -> int {
    (c as int) - ('0' as int)
}

/// Reading decimal digits of `d` from `i` on, `v` read so far.
pub open spec fn scan_number(d: Seq<char>, i: int, v: int) -> Result<int, NumberProblem>
    decreases d.len() - i,
{
    if i >= d.len() {
        Ok(v)
    } else if !is_digit(d[i]) {
        Err(NumberProblem::InvalidDigit)
    } else if v * 10 + digit_value(d[i]) > u64::MAX {
        Err(NumberProblem::TooLarge)
    } else {
        scan_number(d, i + 1, v * 10 + digit_value(d[i]))
    }
}

/// The value of a decimal `u64`, as `u64::from_str` reads it: an optional
/// leading `+`, then digits only.
pub open spec fn number(s: Seq<char>) -> Result<int, NumberProblem> {
    if s.len() == 0 {
        Err(NumberProblem::Empty)
    } else if (s[0] == '+' || s[0] == '-') && s.len() == 1 {
        Err(NumberProblem::InvalidDigit)
    } else if s[0] == '+' {
        scan_number(s, 1, 0)
    } else {
        scan_number(s, 0, 0)
    }
}

/// Reads a decimal `u64`.
pub fn parse_u64(s: &str) -> (r: Result<u64, Error>)
    ensures
        match number(s@) {
            Ok(v) => r matches Ok(x) && x as int == v,
            Err(p) => r == Err::<u64, Error>(Error::InvalidNumber(p)),
        },
{
    let n = s.unicode_len();
    if n == 0 {
        return Err(Error::InvalidNumber(NumberProblem::Empty));
    }
    let c0 = s.get_char(0);
    if (c0 == '+' || c0 == '-') && n == 1 {
        return Err(Error::InvalidNumber(NumberProblem::InvalidDigit));
    }
    let mut i: usize = if c0 == '+' { 1 } else { 0 };
    let mut v: u64 = 0;
    while i < n
        invariant
            n == s@.len(),
            i <= n,
            scan_number(s@, i as int, v as int) == number(s@),
        decreases n - i,
    {
        let c = s.get_char(i);
        if !('0' <= c && c <= '9') {
            return Err(Error::InvalidNumber(NumberProblem::InvalidDigit));
        }
        let d: u64 = ((c as u32) - ('0' as u32)) as u64;
        assert(d as int == digit_value(c));
        let m = match v.checked_mul(10) {
            Some(m) => m,
            None => return Err(Error::InvalidNumber(NumberProblem::TooLarge)),
        };
        v = match m.checked_add(d) {
            Some(x) => x,
            None => return Err(Error::InvalidNumber(NumberProblem::TooLarge)),
        };
        i = i + 1;
    }
    Ok(v)
}

/// Argument `i`, or `missing argument i`.
pub fn arg(args: &Vec<String>, i: usize) -> (r: Result<String, Error>)
    ensures
        i < args@.len() ==> r == Ok::<String, Error>(args@[i as int]),
        i >= args@.len() ==> r == Err::<String, Error>(Error::MissingArgument(i)),
{
    if i < args.len() {
        Ok(args[i].clone())
    } else {
        Err(Error::MissingArgument(i))
    }
}

/// Argument `i` read as a number.
pub fn number_arg(args: &Vec<String>, i: usize) -> (r: Result<u64, Error>)
    ensures
        i >= args@.len() ==> r == Err::<u64, Error>(Error::MissingArgument(i)),
        i < args@.len() ==> match number(args@[i as int]@) {
            Ok(v) => r matches Ok(x) && x as int == v,
            Err(p) => r == Err::<u64, Error>(Error::InvalidNumber(p)),
        },
{
    let a = arg(args, i)?;
    parse_u64(a.as_str())
}

/// Position of the first `=` in `v`, or -1.
pub open spec fn eq_pos(v: Seq<char>) -> int {
    first_index(v, |c: char| c == '=')
}

/// A `REPO=REVISION` argument split at its first `=`.
pub open spec fn assignment(v: Seq<char>) -> (Seq<char>, Seq<char>) {
    (v.subrange(0, eq_pos(v)), v.subrange(eq_pos(v) + 1, v.len() as int))
}

/// Reads a `REPO=REVISION` argument.
pub fn parse_input(v: &str) -> (r: Result<RepositoryInput, Error>)
    ensures
        eq_pos(v@) < 0 ==> r == Err::<RepositoryInput, Error>(Error::ExpectedAssignment),
        eq_pos(v@) >= 0 ==> (r matches Ok(x) && x.repository_id@ == assignment(v@).0 && x.base_revision@
            == assignment(v@).1),
{
    let n = v.unicode_len();
    let ghost p = |c: char| c == '=';
    let mut i: usize = 0;
    while i < n
        invariant
            n == v@.len(),
            p == (|c: char| c == '='),
            i <= n,
            forall|j: int| 0 <= j < i ==> !p(#[trigger] v@[j]),
        decreases n - i,
    {
        if v.get_char(i) == '=' {
            proof {
                assert(is_first(v@, p, i as int));
                lemma_first_index_found(v@, p, i as int);
            }
            return Ok(
                RepositoryInput {
                    repository_id: v.substring_char(0, i).to_owned(),
                    base_revision: v.substring_char(i + 1, n).to_owned(),
                },
            );
        }
        i = i + 1;
    }
    proof { lemma_first_index_none(v@, p); }
    Err(Error::ExpectedAssignment)
}

/// Some argument from `k` on is not a `REPO=REVISION` assignment.
pub open spec fn bad_inputs(args: Seq<Seq<char>>, k: int) -> bool {
    exists|j: int| k <= j < args.len() && eq_pos(#[trigger] args[j]) < 0
}

/// The inputs read from the arguments from `k` on.
pub open spec fn inputs_from(res: Seq<RepositoryInput>, args: Seq<Seq<char>>, k: int) -> bool {
    &&& res.len() == (if k < args.len() { args.len() - k } else { 0 })
    &&& forall|j: int|
        0 <= j < res.len() ==> (#[trigger] res[j]).repository_id@ == assignment(args[k + j]).0
            && res[j].base_revision@ == assignment(args[k + j]).1
}

/// Reads every argument from `k` on as `REPO=REVISION`.
pub fn parse_inputs(args: &Vec<String>, k: usize) -> (r: Result<Vec<RepositoryInput>, Error>)
    ensures
        bad_inputs(views(args@), k as int) ==> r == Err::<Vec<RepositoryInput>, Error>(Error::ExpectedAssignment),
        !bad_inputs(views(args@), k as int) ==> (r matches Ok(v) && inputs_from(v@, views(args@), k as int)),
{
    let mut out: Vec<RepositoryInput> = Vec::new();
    let mut i: usize = k;
    if i >= args.len() {
        proof {
            assert(!bad_inputs(views(args@), k as int));
        }
        return Ok(out);
    }
    while i < args.len()
        invariant
            k <= i <= args@.len(),
            k < args@.len(),
            out@.len() == i - k,
            forall|j: int| k <= j < i ==> eq_pos(#[trigger] views(args@)[j]) >= 0,
            forall|j: int|
                0 <= j < out@.len() ==> (#[trigger] out@[j]).repository_id@ == assignment(views(args@)[k + j]).0
                    && out@[j].base_revision@ == assignment(views(args@)[k + j]).1,
        decreases args@.len() - i,
    {
        proof { assert(views(args@)[i as int] == args@[i as int]@); }
        match parse_input(args[i].as_str()) {
            Ok(x) => out.push(x),
            Err(e) => {
                proof { assert(eq_pos(views(args@)[i as int]) < 0); }
                return Err(e);
            },
        }
        i = i + 1;
    }
    Ok(out)
}

/// One argument the client reads: plain, numeric, or the assignments from
/// that position on.
#[derive(Clone, Copy, Debug, PartialEq, Eq, Structural)]
pub enum Step {
    Arg(usize),
    Num(usize),
    Inputs(usize),
}

/// The error reading one step reports, if any.
pub open spec fn step_error(args: Seq<Seq<char>>, st: Step) -> Option<Error> {
    match st {
        Step::Arg(i) => if i >= args.len() {
            Some(Error::MissingArgument(i))
        } else {
            None
        },
        Step::Num(i) => if i >= args.len() {
            Some(Error::MissingArgument(i))
        } else {
            match number(args[i as int]) {
                Err(p) => Some(Error::InvalidNumber(p)),
                Ok(_) => None,
            }
        },
        Step::Inputs(k) => if bad_inputs(args, k as int) {
            Some(Error::ExpectedAssignment)
        } else {
            None
        },
    }
}

/// The first error reading the steps in order reports, if any.
pub open spec fn first_error(args: Seq<Seq<char>>, steps: Seq<Step>) -> Option<Error>
    decreases steps.len(),
{
    if steps.len() == 0 {
        None
    } else {
        match step_error(args, steps[0]) {
            Some(e) => Some(e),
            None => first_error(args, steps.drop_first()),
        }
    }
}

/// The arguments each mutating command reads, in the order it reads them;
/// the request ID (argument 1) is read last.
pub open spec fn steps_of(cmd: Seq<char>) -> Seq<Step> {
    if cmd == "clone"@ || cmd == "register"@ {
        seq![Step::Arg(2), Step::Arg(3), Step::Arg(4), Step::Arg(5), Step::Arg(6), Step::Arg(1)]
    } else if cmd == "project"@ {
        seq![Step::Num(3), Step::Arg(2), Step::Arg(2), Step::Num(4), Step::Arg(1)]
    } else if cmd == "provision"@ {
        seq![Step::Arg(2), Step::Arg(2), Step::Arg(3), Step::Inputs(4), Step::Arg(1)]
    } else if cmd == "lease"@ {
        seq![Step::Arg(2), Step::Arg(3), Step::Num(4), Step::Num(5), Step::Num(6), Step::Arg(1)]
    } else if cmd == "abandon"@ {
        seq![Step::Arg(2), Step::Arg(3), Step::Num(4), Step::Num(5), Step::Arg(6), Step::Arg(1)]
    } else if cmd == "release"@ {
        seq![Step::Arg(2), Step::Arg(3), Step::Num(4), Step::Num(5), Step::Inputs(6), Step::Arg(1)]
    } else {
        seq![Step::Arg(2), Step::Num(3), Step::Arg(1)]
    }
}

/// A command the client understands besides help.
pub open spec fn is_mutation(cmd: Seq<char>) -> bool {
    cmd == "clone"@ || cmd == "register"@ || cmd == "project"@ || cmd == "provision"@ || cmd == "lease"@
        || cmd == "abandon"@ || cmd == "release"@ || cmd == "collect"@
}

/// What the client asks of the daemon.
pub enum CliRequest {
    Snapshot,
    Inspect(String),
    Context(String),
    Watch(u64),
    /// Apply the encoded command in this file.
    Apply(String),
    Mutate(WorkspaceCommand),
}

/// The client prints its usage instead of calling the daemon.
pub fn wants_help(args: &Vec<String>) -> (r: bool)
    ensures
        r == (args@.len() == 0 || args@[0]@ == "help"@ || args@[0]@ == "--help"@),
{
    args.len() == 0 || crate::text::same(args[0].as_str(), "help") || crate::text::same(args[0].as_str(), "--help")
}

/// The value of numeric argument `i` (when it reads).
pub open spec fn num(args: Seq<Seq<char>>, i: int) -> int {
    number(args[i])->Ok_0
}

/// The mutation the arguments describe, once every step read.
pub open spec fn describes(c: WorkspaceCommand, a: Seq<Seq<char>>) -> bool {
    let cmd = a[0];
    &&& c.request_id@ == a[1]
    &&& match c.action {
        Some(Action::RegisterRepository(x)) => (cmd == "clone"@ || cmd == "register"@) && match x.repository {
            Some(r) => {
                &&& r.id@ == a[2]
                &&& r.host@ == a[3]
                &&& r.namespace@ == a[4]
                &&& r.name@ == a[5]
                &&& !r.ready
                &&& if cmd == "clone"@ {
                    r.clone_url@ == a[6] && r.path@.len() == 0
                } else {
                    r.path@ == a[6] && r.clone_url@.len() == 0
                }
            },
            None => false,
        },
        Some(Action::PutProject(x)) => cmd == "project"@ && x.expected_revision == num(a, 3) && match x.project {
            Some(p) => {
                &&& p.id@ == a[2]
                &&& p.display_name@ == a[2]
                &&& p.retention_seconds == num(a, 4)
                &&& views(p.repository_ids@) == (if a.len() > 5 { a.subrange(5, a.len() as int) } else { seq![] })
                &&& p.revision == 0
                &&& p.validation_targets@.len() == 0
            },
            None => false,
        },
        Some(Action::Provision(x)) => {
            &&& cmd == "provision"@
            &&& x.id@ == a[2]
            &&& x.display_name@ == a[2]
            &&& x.project_id@ == a[3]
            &&& inputs_from(x.inputs@, a, 4)
        },
        Some(Action::Lease(x)) => {
            &&& cmd == "lease"@
            &&& x.workspace_id@ == a[2]
            &&& x.owner@ == a[3]
            &&& x.expected_revision == num(a, 4)
            &&& x.generation == num(a, 5)
            &&& x.ttl_seconds == num(a, 6)
        },
        Some(Action::Release(x)) => {
            &&& (cmd == "abandon"@ || cmd == "release"@)
            &&& x.workspace_id@ == a[2]
            &&& x.owner@ == a[3]
            &&& x.expected_revision == num(a, 4)
            &&& x.generation == num(a, 5)
            &&& if cmd == "abandon"@ {
                x.abandonment_reason@ == a[6] && x.integrated_into@.len() == 0
            } else {
                x.abandonment_reason@.len() == 0 && inputs_from(x.integrated_into@, a, 6)
            }
        },
        Some(Action::Collect(x)) => {
            &&& cmd == "collect"@
            &&& x.workspace_id@ == a[2]
            &&& x.expected_revision == num(a, 3)
        },
        None => false,
    }
}

fn rest_from(args: &Vec<String>, k: usize) -> (r: Vec<String>)
    ensures
        views(r@) == (if views(args@).len() > k { views(args@).subrange(k as int, views(args@).len() as int) } else { seq![] }),
{
    let mut out: Vec<String> = Vec::new();
    let mut i: usize = k;
    if i >= args.len() {
        assert(views(out@) =~= seq![]);
        return out;
    }
    while i < args.len()
        invariant
            k <= i <= args@.len(),
            k < args@.len(),
            views(out@) == views(args@).subrange(k as int, i as int),
        decreases args@.len() - i,
    {
        let ghost before = out@;
        out.push(args[i].clone());
        assert(views(out@) =~= views(before).push(args@[i as int]@));
        assert(views(out@) =~= views(args@).subrange(k as int, i + 1));
        i = i + 1;
    }
    out
}

fn is(a: &String, lit: &str) -> (r: bool)
    ensures
        r == (a@ == lit@),
{
    crate::text::same(a.as_str(), lit)
}

/// The request the arguments (the program name and a trailing
/// `--protobuf` already removed) ask for. `binary` is whether an encoded
/// response was asked for.
pub fn parse_request(args: &Vec<String>, binary: bool) -> (r: Result<CliRequest, Error>)
    requires
        args@.len() > 0,
    ensures
        ({
            let a = views(args@);
            let cmd = a[0];
            if cmd == "snapshot"@ {
                r matches Ok(CliRequest::Snapshot)
            } else if cmd == "inspect"@ {
                if a.len() > 1 {
                    r matches Ok(CliRequest::Inspect(x)) && x@ == a[1]
                } else {
                    r == Err::<CliRequest, Error>(Error::MissingArgument(1))
                }
            } else if cmd == "context"@ {
                if a.len() > 1 {
                    r matches Ok(CliRequest::Context(x)) && x@ == a[1]
                } else {
                    r == Err::<CliRequest, Error>(Error::MissingArgument(1))
                }
            } else if cmd == "watch"@ {
                if binary {
                    r == Err::<CliRequest, Error>(Error::WatchBinary)
                } else if a.len() > 1 {
                    match number(a[1]) {
                        Ok(v) => r matches Ok(CliRequest::Watch(x)) && x == v,
                        Err(p) => r == Err::<CliRequest, Error>(Error::InvalidNumber(p)),
                    }
                } else {
                    r matches Ok(CliRequest::Watch(x)) && x == 0
                }
            } else if cmd == "apply"@ {
                if a.len() > 1 {
                    r matches Ok(CliRequest::Apply(x)) && x@ == a[1]
                } else {
                    r == Err::<CliRequest, Error>(Error::MissingArgument(1))
                }
            } else if !is_mutation(cmd) {
                r matches Err(Error::UnknownCommand(c)) && c@ == cmd
            } else {
                match first_error(a, steps_of(cmd)) {
                    Some(e) => r == Err::<CliRequest, Error>(e),
                    None => r matches Ok(CliRequest::Mutate(c)) && describes(c, a),
                }
            }
        }),
{
    let ghost a = views(args@);
    proof {
        reveal_with_fuel(first_error, 7);
        assert(a[0] == args@[0]@);
        assert(a.len() > 1 ==> a[1] == args@[1]@);
    }
    let cmd = &args[0];
    if is(cmd, "snapshot") {
        return Ok(CliRequest::Snapshot);
    }
    if is(cmd, "inspect") {
        return Ok(CliRequest::Inspect(arg(args, 1)?));
    }
    if is(cmd, "context") {
        return Ok(CliRequest::Context(arg(args, 1)?));
    }
    if is(cmd, "watch") {
        if binary {
            return Err(Error::WatchBinary);
        }
        if args.len() > 1 {
            return Ok(CliRequest::Watch(parse_u64(args[1].as_str())?));
        }
        return Ok(CliRequest::Watch(0));
    }
    if is(cmd, "apply") {
        return Ok(CliRequest::Apply(arg(args, 1)?));
    }
    let action = if is(cmd, "clone") || is(cmd, "register") {
        let id = arg(args, 2)?;
        let host = arg(args, 3)?;
        let ns = arg(args, 4)?;
        let name = arg(args, 5)?;
        let last = arg(args, 6)?;
        let cloning = is(cmd, "clone");
        Action::RegisterRepository(
            RegisterRepository {
                repository: Some(
                    Repository {
                        id,
                        host,
                        namespace: ns,
                        name,
                        path: if cloning { String::new() } else { last.clone() },
                        clone_url: if cloning { last } else { String::new() },
                        ready: false,
                    },
                ),
            },
        )
    } else if is(cmd, "project") {
        let expected_revision = number_arg(args, 3)?;
        let id = arg(args, 2)?;
        let display_name = arg(args, 2)?;
        let retention_seconds = number_arg(args, 4)?;
        let repository_ids = rest_from(args, 5);
        Action::PutProject(
            PutProject {
                expected_revision,
                project: Some(
                    ProjectSpec {
                        id,
                        display_name,
                        repository_ids,
                        retention_seconds,
                        revision: 0,
                        validation_targets: Vec::new(),
                    },
                ),
            },
        )
    } else if is(cmd, "provision") {
        let id = arg(args, 2)?;
        let display_name = arg(args, 2)?;
        let project_id = arg(args, 3)?;
        let inputs = parse_inputs(args, 4)?;
        Action::Provision(ProvisionWorkspace { id, display_name, project_id, inputs })
    } else if is(cmd, "lease") {
        let workspace_id = arg(args, 2)?;
        let owner = arg(args, 3)?;
        let expected_revision = number_arg(args, 4)?;
        let generation = number_arg(args, 5)?;
        let ttl_seconds = number_arg(args, 6)?;
        Action::Lease(LeaseWorkspace { workspace_id, owner, expected_revision, generation, ttl_seconds })
    } else if is(cmd, "abandon") || is(cmd, "release") {
        let workspace_id = arg(args, 2)?;
        let owner = arg(args, 3)?;
        let expected_revision = number_arg(args, 4)?;
        let generation = number_arg(args, 5)?;
        let abandoning = is(cmd, "abandon");
        let abandonment_reason = if abandoning { arg(args, 6)? } else { String::new() };
        let integrated_into = if abandoning { Vec::new() } else { parse_inputs(args, 6)? };
        Action::Release(
            ReleaseWorkspace {
                workspace_id,
                owner,
                expected_revision,
                generation,
                abandonment_reason,
                integrated_into,
            },
        )
    } else if is(cmd, "collect") {
        let workspace_id = arg(args, 2)?;
        let expected_revision = number_arg(args, 3)?;
        Action::Collect(CollectWorkspace { workspace_id, expected_revision })
    } else {
        return Err(Error::UnknownCommand(cmd.clone()));
    };
    let request_id = arg(args, 1)?;
    Ok(CliRequest::Mutate(WorkspaceCommand { request_id, action: Some(action) }))
}

} // verus!
