//! OVS unixctl interface: finding a daemon's control socket, and the
//! built-in commands whose replies the library reads.
//!
//! The files are read, and the socket opened, by the caller: each decision
//! here takes what was found and says what follows from it.

use vstd::prelude::*;

use crate::error::{err_view, Error, ErrorView};
use crate::jsonrpc::{call_spec, call_view, Client, Received, Request};
use crate::text::{
    find_ws, first_whitespace, lines, parse_u32, parsed_u32, split_lines, substring, trim,
    trimmed,
};

verus! {

/// The timeout of a connection when none is given, in milliseconds.
pub const DEFAULT_TIMEOUT_MS: u64 = 1000;

/// The daemon that [`OvsUnixCtl::new`] controls.
pub open spec fn default_target() -> Seq<char> {
    "ovs-vswitchd"@
}

/// Where daemons keep their pid files and sockets unless told otherwise.
pub open spec fn default_rundir() -> Seq<char> {
    "/var/run/openvswitch"@
}

/// `name` inside the directory `dir`.
pub open spec fn path_join(dir: Seq<char>, name: Seq<char>) -> Seq<char> {
    if dir.len() == 0 {
        name
    } else if dir.last() == '/' {
        dir + name
    } else {
        dir + "/"@ + name
    }
}

/// `{rundir}/{target}.pid`
pub open spec fn pid_file_spec(target: Seq<char>, rundir: Seq<char>) -> Seq<char> {
    path_join(rundir, target + ".pid"@)
}

/// `{rundir}/{target}.{pid}.ctl`
pub open spec fn socket_file_spec(target: Seq<char>, rundir: Seq<char>, pid: Seq<char>) -> Seq<
    char,
> {
    path_join(rundir, target + "."@ + pid + ".ctl"@)
}

/// Whether a pid file's content names no process: the file was not read,
/// or holds only whitespace.
pub open spec fn not_running(pid_file: Option<String>) -> bool {
    match pid_file {
        None => true,
        Some(c) => trimmed(c@).len() == 0,
    }
}

/// The socket that discovery names for a pid file's content, when it names a process.
pub open spec fn discovered_socket(target: Seq<char>, rundir: Seq<char>, pid_file: Option<String>) -> Seq<char> {
    match pid_file {
        Some(c) => socket_file_spec(target, rundir, trimmed(c@)),
        None => Seq::empty(),
    }
}

/// The directory to search: the override when one is set (and readable as
/// text), else the default.
pub fn rundir(var: Option<String>) -> (r: String)
    ensures
        r@ == match var {
            Some(v) => v@,
            None => default_rundir(),
        },
{
    match var {
        Some(v) => v,
        None => "/var/run/openvswitch".to_owned(),
    }
}

fn join_path(dir: &str, name: String) -> (r: String)
    ensures
        r@ == path_join(dir@, name@),
{
    let n = dir.unicode_len();
    if n == 0 {
        name
    } else if dir.get_char(n - 1) == '/' {
        let mut out = dir.to_owned();
        out.append(name.as_str());
        out
    } else {
        let mut out = dir.to_owned();
        out.append("/");
        out.append(name.as_str());
        out
    }
}

/// The path of the pid file of `target` in `rundir`.
pub fn pid_file_path(target: &str, rundir: &str) -> (r: String)
    ensures
        r@ == pid_file_spec(target@, rundir@),
{
    let mut name = target.to_owned();
    name.append(".pid");
    join_path(rundir, name)
}

/// The control socket of `target` in `rundir`, given what its pid file held
/// (`None` when it could not be read).
pub fn find_socket_at(target: &str, rundir: &str, pid_file: Option<String>) -> (r: Result<
    String,
    Error,
>)
    ensures
        not_running(pid_file) ==> err_view(r) == Err::<String, ErrorView>(ErrorView::OvsNotRunning),
        !not_running(pid_file) ==> (r matches Ok(p) && p@ == discovered_socket(
            target@,
            rundir@,
            pid_file,
        )),
{
    let content = match pid_file {
        Some(c) => c,
        None => {
            return Err(Error::OvsNotRunning);
        },
    };
    let pid = trim(content.as_str());
    if pid.unicode_len() == 0 {
        return Err(Error::OvsNotRunning);
    }
    let mut name = target.to_owned();
    name.append(".");
    name.append(pid.as_str());
    name.append(".ctl");
    Ok(join_path(rundir, name))
}

/// One line of the `list-commands` reply: the command, and what follows it.
pub open spec fn command_entry(line: Seq<char>) -> (Seq<char>, Seq<char>) {
    let t = trimmed(line);
    let k = find_ws(t, 0);
    if k < t.len() {
        (trimmed(t.subrange(0, k)), trimmed(t.subrange(k + 1, t.len() as int)))
    } else {
        (trimmed(t), Seq::empty())
    }
}

/// The `list-commands` reply read as commands: every line after the header.
pub open spec fn command_listing(text: Seq<char>) -> Seq<(Seq<char>, Seq<char>)> {
    let ls = lines(text);
    if ls.len() == 0 {
        Seq::empty()
    } else {
        ls.drop_first().map_values(|l: Seq<char>| command_entry(l))
    }
}

pub open spec fn pairs_view(v: Seq<(String, String)>) -> Seq<(Seq<char>, Seq<char>)> {
    v.map_values(|p: (String, String)| (p.0@, p.1@))
}

fn command_entry_of(line: &str) -> (r: (String, String))
    ensures
        (r.0@, r.1@) == command_entry(line@),
{
    let t = trim(line);
    let k = first_whitespace(t.as_str());
    let n = t.unicode_len();
    if k < n {
        let cmd = substring(t.as_str(), 0, k);
        let args = substring(t.as_str(), k + 1, n);
        (trim(cmd.as_str()), trim(args.as_str()))
    } else {
        (trim(t.as_str()), String::new())
    }
}

/// The commands and their argument signatures listed in a `list-commands`
/// reply: the first line is a header; each other line is split at its first
/// whitespace, both sides trimmed.
pub fn parse_command_list(text: &str) -> (r: Vec<(String, String)>)
    ensures
        pairs_view(r@) == command_listing(text@),
{
    let ls = split_lines(text);
    let ghost lv = ls@.map_values(|l: String| l@);
    let mut out: Vec<(String, String)> = Vec::new();
    let mut i: usize = 1;
    while i < ls.len()
        invariant
            1 <= i,
            i <= ls.len() || (ls.len() == 0 && i == 1),
            lv == ls@.map_values(|l: String| l@),
            lv == lines(text@),
            out@.len() == i - 1,
            forall|k: int|
                0 <= k < out@.len() ==> (#[trigger] out@[k].0@, out@[k].1@) == command_entry(
                    lv[k + 1],
                ),
        decreases ls.len() - i,
    {
        out.push(command_entry_of(ls[i].as_str()));
        i = i + 1;
    }
    proof {
        if lv.len() == 0 {
            assert(pairs_view(out@) =~= command_listing(text@));
        } else {
            let want = lv.drop_first().map_values(|l: Seq<char>| command_entry(l));
            assert(out@.len() == want.len());
            assert forall|k: int| 0 <= k < want.len() implies pairs_view(out@)[k] == want[k] by {
                assert((out@[k].0@, out@[k].1@) == command_entry(lv[k + 1]));
            }
            assert(pairs_view(out@) =~= want);
        }
    }
    out
}

/// Index of the first `.` or `-` at or after `i`, or the length.
pub open spec fn find_sep(s: Seq<char>, i: int) -> int
    decreases s.len() - i,
{
    if i < 0 || i >= s.len() {
        s.len() as int
    } else if s[i] == '.' || s[i] == '-' {
        i
    } else {
        find_sep(s, i + 1)
    }
}

/// Index of the first space of `s`, or its length.
pub open spec fn find_space(s: Seq<char>, i: int) -> int
    decreases s.len() - i,
{
    if i < 0 || i >= s.len() {
        s.len() as int
    } else if s[i] == ' ' {
        i
    } else {
        find_space(s, i + 1)
    }
}

/// What follows the daemon's name in a version reply.
pub open spec fn version_marker() -> Seq<char> {
    " (Open vSwitch) "@
}

pub open spec fn invalid_version(raw: Seq<char>, why: Seq<char>) -> ErrorView {
    ErrorView::OvsInvalidResponse { cmd: "version"@, response: raw, error: why }
}

/// The version numbers in `rest`, the text after the marker: split at `.`
/// or `-` into at most four parts, of which three or four must be there.
pub open spec fn version_numbers(raw: Seq<char>, rest: Seq<char>) -> Result<
    (u32, u32, u32, Seq<char>),
    ErrorView,
> {
    let n = rest.len() as int;
    let a = find_sep(rest, 0);
    let b = find_sep(rest, a + 1);
    let c = find_sep(rest, b + 1);
    if a >= n || b >= n {
        Err(invalid_version(raw, "parse error"@))
    } else {
        let x = rest.subrange(0, a);
        let y = rest.subrange(a + 1, b);
        let z = rest.subrange(b + 1, c);
        let patch = if c < n {
            rest.subrange(c + 1, n)
        } else {
            Seq::empty()
        };
        if parsed_u32(x) is None {
            Err(invalid_version(raw, "can't parse "@ + x))
        } else if parsed_u32(y) is None {
            Err(invalid_version(raw, "can't parse "@ + y))
        } else if parsed_u32(z) is None {
            Err(invalid_version(raw, "can't parse "@ + z))
        } else {
            Ok((parsed_u32(x)->0, parsed_u32(y)->0, parsed_u32(z)->0, patch))
        }
    }
}

/// The version in a `version` reply `"<daemon> (Open vSwitch) X.Y.Z[.P|-P]"`.
pub open spec fn version_spec(raw: Seq<char>) -> Result<(u32, u32, u32, Seq<char>), ErrorView> {
    let t = trimmed(raw);
    let sp = find_space(t, 0);
    let m = version_marker();
    if sp > 0 && sp + m.len() <= t.len() && t.subrange(sp, sp + m.len()) == m {
        version_numbers(raw, t.subrange(sp + m.len(), t.len() as int))
    } else {
        Err(invalid_version(raw, "invalid prefix"@))
    }
}

pub open spec fn version_view(r: Result<(u32, u32, u32, String), Error>) -> Result<
    (u32, u32, u32, Seq<char>),
    ErrorView,
> {
    match r {
        Ok((x, y, z, p)) => Ok((x, y, z, p@)),
        Err(e) => Err(e@),
    }
}

fn find_char_from(s: &str, i: usize, dots: bool) -> (r: usize)
    requires
        i <= s@.len(),
    ensures
        dots ==> r == find_sep(s@, i as int),
        !dots ==> r == find_space(s@, i as int),
        i <= r <= s@.len(),
{
    let n = s.unicode_len();
    let mut j: usize = i;
    while j < n
        invariant
            n == s@.len(),
            i <= j <= n,
            dots ==> find_sep(s@, j as int) == find_sep(s@, i as int),
            !dots ==> find_space(s@, j as int) == find_space(s@, i as int),
        decreases n - j,
    {
        let c = s.get_char(j);
        if dots && (c == '.' || c == '-') {
            return j;
        }
        if !dots && c == ' ' {
            return j;
        }
        j = j + 1;
    }
    j
}

fn version_error(raw: &str, why: String) -> (r: Error)
    ensures
        r@ == invalid_version(raw@, why@),
{
    Error::OvsInvalidResponse { cmd: "version".to_owned(), response: raw.to_owned(), error: why }
}

fn cannot_parse(raw: &str, part: &String) -> (r: Error)
    ensures
        r@ == invalid_version(raw@, "can't parse "@ + part@),
{
    let mut why = "can't parse ".to_owned();
    why.append(part.as_str());
    version_error(raw, why)
}

/// Reads the version out of the reply to `version`.
pub fn parse_version(raw: &str) -> (r: Result<(u32, u32, u32, String), Error>)
    ensures
        version_view(r) == version_spec(raw@),
{
    let t = trim(raw);
    let ts = t.as_str();
    let n = t.unicode_len();
    let sp = find_char_from(ts, 0, false);
    let marker = " (Open vSwitch) ".to_owned();
    let mlen = marker.unicode_len();
    if !(sp > 0 && mlen <= n - sp && substring(ts, sp, sp + mlen) == marker) {
        return Err(version_error(raw, "invalid prefix".to_owned()));
    }
    let rest = substring(ts, sp + mlen, n);
    let rs = rest.as_str();
    let rn = rest.unicode_len();
    let a = find_char_from(rs, 0, true);
    if a >= rn {
        return Err(version_error(raw, "parse error".to_owned()));
    }
    let b = find_char_from(rs, a + 1, true);
    if b >= rn {
        return Err(version_error(raw, "parse error".to_owned()));
    }
    let c = find_char_from(rs, b + 1, true);
    let x = substring(rs, 0, a);
    let y = substring(rs, a + 1, b);
    let z = substring(rs, b + 1, c);
    let patch = if c < rn {
        substring(rs, c + 1, rn)
    } else {
        String::new()
    };
    let xv = match parse_u32(x.as_str()) {
        Some(v) => v,
        None => {
            return Err(cannot_parse(raw, &x));
        },
    };
    let yv = match parse_u32(y.as_str()) {
        Some(v) => v,
        None => {
            return Err(cannot_parse(raw, &y));
        },
    };
    let zv = match parse_u32(z.as_str()) {
        Some(v) => v,
        None => {
            return Err(cannot_parse(raw, &z));
        },
    };
    Ok((xv, yv, zv, patch))
}

/// What the reply to `list-commands` gives.
pub open spec fn list_commands_spec(request: Request, received: Received) -> Result<
    Seq<(Seq<char>, Seq<char>)>,
    ErrorView,
> {
    match call_spec(request, received) {
        Err(e) => Err(e),
        Ok(None) => Err(
            ErrorView::OvsInvalidResponse {
                cmd: "list-commands"@,
                response: Seq::empty(),
                error: "should not be empty"@,
            },
        ),
        Ok(Some(t)) => Ok(command_listing(t)),
    }
}

pub open spec fn listing_view(r: Result<Vec<(String, String)>, Error>) -> Result<
    Seq<(Seq<char>, Seq<char>)>,
    ErrorView,
> {
    match r {
        Ok(v) => Ok(pairs_view(v@)),
        Err(e) => Err(e@),
    }
}

/// What the reply to `version` gives.
pub open spec fn version_reply_spec(request: Request, received: Received) -> Result<
    (u32, u32, u32, Seq<char>),
    ErrorView,
> {
    match call_spec(request, received) {
        Err(e) => Err(e),
        Ok(None) => Err(invalid_version(Seq::empty(), "should not be empty"@)),
        Ok(Some(t)) => version_spec(t),
    }
}

pub open spec fn timeout_or_default(timeout_ms: Option<u64>) -> u64 {
    match timeout_ms {
        Some(t) => t,
        None => DEFAULT_TIMEOUT_MS,
    }
}

/// OVS Unix control interface: one connection to a daemon's control socket.
///
/// It allows the execution of control commands against ovs-vswitchd or
/// another daemon of Open vSwitch.
pub struct OvsUnixCtl {
    client: Client,
    socket: String,
    timeout_ms: u64,
}

impl OvsUnixCtl {
    /// The path of the control socket.
    pub closed spec fn socket_spec(&self) -> Seq<char> {
        self.socket@
    }

    /// The read and write timeout of the connection, in milliseconds.
    pub closed spec fn timeout_spec(&self) -> u64 {
        self.timeout_ms
    }

    /// The ids of the requests made so far on the connection.
    pub closed spec fn issued(&self) -> Seq<usize> {
        self.client.issued()
    }

    pub closed spec fn wf(&self) -> bool {
        self.client.wf()
    }

    pub open spec fn has_ids_left(&self) -> bool {
        self.issued().len() + 2 <= usize::MAX
    }

    /// Opens the interface on the socket at `path`; `present` tells whether
    /// a file exists there.
    pub fn unix(path: String, present: bool, timeout_ms: Option<u64>) -> (r: Result<
        OvsUnixCtl,
        Error,
    >)
        ensures
            !present ==> err_view(r) == Err::<OvsUnixCtl, ErrorView>(
                ErrorView::SocketNotFound(path@),
            ),
            present ==> (r matches Ok(c) && c.wf() && c.socket_spec() == path@
                && c.timeout_spec() == timeout_or_default(timeout_ms) && c.issued()
                == Seq::<usize>::empty()),
    {
        if !present {
            return Err(Error::SocketNotFound(path));
        }
        let timeout_ms = match timeout_ms {
            Some(t) => t,
            None => DEFAULT_TIMEOUT_MS,
        };
        Ok(OvsUnixCtl { client: Client::new(), socket: path, timeout_ms })
    }

    /// Opens the interface on the control socket of `target` (ovs-vswitchd,
    /// ovsdb-server, northd, ...) in `rundir`, given what its pid file held
    /// and whether the socket it names exists.
    pub fn with_target(
        target: &str,
        rundir: &str,
        pid_file: Option<String>,
        socket_present: bool,
        timeout_ms: Option<u64>,
    ) -> (r: Result<OvsUnixCtl, Error>)
        ensures
            not_running(pid_file) ==> err_view(r) == Err::<OvsUnixCtl, ErrorView>(
                ErrorView::OvsNotRunning,
            ),
            !not_running(pid_file) && !socket_present ==> err_view(r) == Err::<
                OvsUnixCtl,
                ErrorView,
            >(ErrorView::SocketNotFound(discovered_socket(target@, rundir@, pid_file))),
            !not_running(pid_file) && socket_present ==> (r matches Ok(c) && c.wf()
                && c.socket_spec() == discovered_socket(target@, rundir@, pid_file)
                && c.timeout_spec() == timeout_or_default(timeout_ms) && c.issued()
                == Seq::<usize>::empty()),
    {
        let path = find_socket_at(target, rundir, pid_file)?;
        OvsUnixCtl::unix(path, socket_present, timeout_ms)
    }

    /// Opens the interface on ovs-vswitchd's control socket in `rundir`.
    pub fn new(
        rundir: &str,
        pid_file: Option<String>,
        socket_present: bool,
        timeout_ms: Option<u64>,
    ) -> (r: Result<OvsUnixCtl, Error>)
        ensures
            not_running(pid_file) ==> err_view(r) == Err::<OvsUnixCtl, ErrorView>(
                ErrorView::OvsNotRunning,
            ),
            !not_running(pid_file) && !socket_present ==> err_view(r) == Err::<
                OvsUnixCtl,
                ErrorView,
            >(ErrorView::SocketNotFound(discovered_socket(default_target(), rundir@, pid_file))),
            !not_running(pid_file) && socket_present ==> (r matches Ok(c) && c.wf()
                && c.socket_spec() == discovered_socket(default_target(), rundir@, pid_file)
                && c.timeout_spec() == timeout_or_default(timeout_ms) && c.issued()
                == Seq::<usize>::empty()),
    {
        OvsUnixCtl::with_target("ovs-vswitchd", rundir, pid_file, socket_present, timeout_ms)
    }

    /// The path of the control socket.
    pub fn socket(&self) -> (r: &String)
        ensures
            r@ == self.socket_spec(),
    {
        &self.socket
    }

    /// The read and write timeout of the connection, in milliseconds.
    pub fn timeout_ms(&self) -> (r: u64)
        ensures
            r == self.timeout_spec(),
    {
        self.timeout_ms
    }

    /// Whether another request can be made on the connection.
    pub fn can_call(&self) -> (r: bool)
        requires
            self.wf(),
        ensures
            r == self.has_ids_left(),
    {
        self.client.can_issue()
    }

    /// The request for `method` with `params`, under the next id.
    pub fn request(&mut self, method: &str, params: &Vec<String>) -> (r: Request)
        requires
            old(self).wf(),
            old(self).has_ids_left(),
        ensures
            final(self).wf(),
            r.method@ == method@,
            r.params@ == params@,
            r.id == old(self).issued().len() + 1,
            final(self).issued() == old(self).issued().push(r.id),
            final(self).socket_spec() == old(self).socket_spec(),
            final(self).timeout_spec() == old(self).timeout_spec(),
    {
        self.client.build_request(method, params)
    }

    /// The raw result of a command whose reply the library does not read.
    pub fn run(&self, request: &Request, received: Received) -> (r: Result<Option<String>, Error>)
        ensures
            call_view(r) == call_spec(*request, received),
    {
        self.client.call_params(request, received)
    }

    /// The request for the common `list-commands` command.
    pub fn list_commands_request(&mut self) -> (r: Request)
        requires
            old(self).wf(),
            old(self).has_ids_left(),
        ensures
            final(self).wf(),
            r.method@ == "list-commands"@,
            r.params@.len() == 0,
            r.id == old(self).issued().len() + 1,
            final(self).issued() == old(self).issued().push(r.id),
            final(self).socket_spec() == old(self).socket_spec(),
            final(self).timeout_spec() == old(self).timeout_spec(),
    {
        self.request("list-commands", &Vec::new())
    }

    /// The commands and their arguments, from the reply to `list-commands`.
    pub fn list_commands(&self, request: &Request, received: Received) -> (r: Result<
        Vec<(String, String)>,
        Error,
    >)
        ensures
            listing_view(r) == list_commands_spec(*request, received),
    {
        match self.client.call_params(request, received)? {
            Some(text) => Ok(parse_command_list(text.as_str())),
            None => Err(
                Error::OvsInvalidResponse {
                    cmd: "list-commands".to_owned(),
                    response: String::new(),
                    error: "should not be empty".to_owned(),
                },
            ),
        }
    }

    /// The request for the `version` command.
    pub fn version_request(&mut self) -> (r: Request)
        requires
            old(self).wf(),
            old(self).has_ids_left(),
        ensures
            final(self).wf(),
            r.method@ == "version"@,
            r.params@.len() == 0,
            r.id == old(self).issued().len() + 1,
            final(self).issued() == old(self).issued().push(r.id),
            final(self).socket_spec() == old(self).socket_spec(),
            final(self).timeout_spec() == old(self).timeout_spec(),
    {
        self.request("version", &Vec::new())
    }

    /// The version of the running daemon, from the reply to `version`.
    pub fn version(&self, request: &Request, received: Received) -> (r: Result<
        (u32, u32, u32, String),
        Error,
    >)
        ensures
            version_view(r) == version_reply_spec(*request, received),
    {
        let reply = self.client.call_params(request, received);
        match reply {
            Err(e) => Err(e),
            Ok(Some(text)) => parse_version(text.as_str()),
            Ok(None) => {
                let empty = String::new();
                let r = version_error(empty.as_str(), "should not be empty".to_owned());
                assert(version_view(Err(r)) == version_reply_spec(*request, received));
                Err(r)
            },
        }
    }
}

} // verus!
