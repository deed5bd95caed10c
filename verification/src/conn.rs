//! The remembered host and the commands that reach it.

use crate::errors::{result_view, SlinkResult};
use crate::path::{join, joined, lemma_joined_injective};
use crate::port::{is_low_port, is_port, parse_port, FIRST_UNPRIVILEGED_PORT};
use crate::process::{run_result, verdict, CommandSpec, CommandView};
use crate::text::{lemma_trimmed_absorbs_suffix, trim, trimmed};
use vstd::prelude::*;
use vstd::string::*;

verus! {

/// The name of the entry that holds the remembered host, below the tool's
/// configuration directory.
pub const HOST_CONFIG_FILE: &'static str = "hostname";

/// Why an operation failed.
#[derive(Debug, Clone, PartialEq, Eq)]
pub enum Error {
    /// No host was ever chosen.
    NoConfigFile,
    /// The chosen host could not be stored; the cause is given as text.
    FailedConfigWrite(String),
    /// The stored host could not be read; the cause is given as text.
    FailedConfigRead(String),
    /// The external program failed.
    ProcessError(crate::process::Error),
}

/// An [`Error`] as text.
pub enum ErrorView {
    NoConfigFile,
    FailedConfigWrite(Seq<char>),
    FailedConfigRead(Seq<char>),
    ProcessError(crate::process::ErrorView),
}

impl View for Error {
    type V = ErrorView;

    open spec fn view(&self) -> ErrorView {
        match self {
            Error::NoConfigFile => ErrorView::NoConfigFile,
            Error::FailedConfigWrite(cause) => ErrorView::FailedConfigWrite(cause@),
            Error::FailedConfigRead(cause) => ErrorView::FailedConfigRead(cause@),
            Error::ProcessError(e) => ErrorView::ProcessError(e@),
        }
    }
}

/// The one place in which the chosen host is kept, as this process knows it:
/// what the last read of the entry gave, or what was last put there.
#[derive(Debug, Clone, PartialEq, Eq)]
pub enum HostStore {
    /// There is no entry: no host was ever chosen.
    Empty,
    /// There is an entry, and reading it failed; the cause is given as text.
    Unreadable(String),
    /// The entry holds this text.
    Holds(String),
}

/// A [`HostStore`] as text.
pub enum StoreView {
    Empty,
    Unreadable(Seq<char>),
    Holds(Seq<char>),
}

impl View for HostStore {
    type V = StoreView;

    open spec fn view(&self) -> StoreView {
        match self {
            HostStore::Empty => StoreView::Empty,
            HostStore::Unreadable(cause) => StoreView::Unreadable(cause@),
            HostStore::Holds(text) => StoreView::Holds(text@),
        }
    }
}

/// The text that is stored for `host`: the host without the whitespace
/// around it, and a line feed.
pub open spec fn host_entry(host: Seq<char>) -> Seq<char> {
    trimmed(host) + seq!['\n']
}

/// The host that a store gives: the text of its entry without the whitespace
/// around it; an error where there is no entry or it could not be read.
pub open spec fn stored_host(store: StoreView) -> Result<Seq<char>, ErrorView> {
    match store {
        StoreView::Empty => Err(ErrorView::NoConfigFile),
        StoreView::Unreadable(cause) => Err(ErrorView::FailedConfigRead(cause)),
        StoreView::Holds(text) => Ok(trimmed(text)),
    }
}

/// The store after `host` was put into it.
pub open spec fn store_with(host: Seq<char>) -> StoreView {
    StoreView::Holds(host_entry(host))
}

/// A host that was stored is the host that is read back, but for the
/// whitespace around it: whatever the store held before.
pub proof fn lemma_set_then_get(host: Seq<char>)
    ensures
        stored_host(store_with(host)) == Ok::<Seq<char>, ErrorView>(trimmed(host)),
{
    lemma_trimmed_absorbs_suffix(host, seq!['\n']);
}

impl HostStore {
    /// A store in which no host was ever put.
    pub fn new() -> (store: HostStore)
        ensures
            store@ == StoreView::Empty,
    {
        HostStore::Empty
    }

    /// The store as a read of its entry shows it: `found` is `None` where
    /// there is no entry, else the text that was read or the cause for which
    /// reading failed.
    pub fn load(found: Option<Result<String, String>>) -> (store: HostStore)
        ensures
            store@ == match found {
                None => StoreView::Empty,
                Some(Err(cause)) => StoreView::Unreadable(cause@),
                Some(Ok(text)) => StoreView::Holds(text@),
            },
    {
        match found {
            None => HostStore::Empty,
            Some(Err(cause)) => HostStore::Unreadable(cause),
            Some(Ok(text)) => HostStore::Holds(text),
        }
    }
}

/// The text to write to the entry so that it holds `host`.
pub fn entry_text(host: &str) -> (text: String)
    ensures
        text@ == host_entry(host@),
{
    let mut text: String = trim(host);
    proof {
        reveal_strlit("\n");
    }
    assert("\n"@ =~= seq!['\n']);
    text.append("\n");
    text
}

/// Makes `host` the chosen host, whatever the store held. `written` is what
/// writing `entry_text(host)` to the entry gave: nothing, or the cause for
/// which it failed. Where it failed the store stays as it was.
pub fn set_host(store: &mut HostStore, host: &str, written: Result<(), String>) -> (r: SlinkResult<
    (),
>)
    ensures
        result_view(r) == match written {
            Ok(_) => Ok::<(), ErrorView>(()),
            Err(cause) => Err(ErrorView::FailedConfigWrite(cause@)),
        },
        final(store)@ == if written is Ok {
            store_with(host@)
        } else {
            old(store)@
        },
{
    match written {
        Ok(_) => {
            *store = HostStore::Holds(entry_text(host));
            Ok(())
        },
        Err(cause) => Err(Error::FailedConfigWrite(cause)),
    }
}

/// The chosen host.
pub fn get_host(store: &HostStore) -> (r: SlinkResult<String>)
    ensures
        result_view(r) == stored_host(store@),
{
    match store {
        HostStore::Empty => Err(Error::NoConfigFile),
        HostStore::Unreadable(cause) => Err(Error::FailedConfigRead(cause.clone())),
        HostStore::Holds(text) => Ok(trim(text.as_str())),
    }
}

/// The file name of the control socket of the connection to `host`.
pub open spec fn socket_file_name(host: Seq<char>) -> Seq<char> {
    "conn-"@ + host + ".sock"@
}

/// The path of the control socket of the connection to `host`, below the
/// cache directory.
pub open spec fn control_socket(cache_home: Seq<char>, host: Seq<char>) -> Seq<char> {
    joined(cache_home, socket_file_name(host))
}

/// The options that every command starts with: share one connection per
/// host, through the host's control socket, and keep it for ten minutes after
/// its last use.
pub open spec fn base_options(cache_home: Seq<char>, host: Seq<char>) -> Seq<Seq<char>> {
    seq![
        "-oControlMaster=auto"@,
        "-oControlPath="@ + control_socket(cache_home, host),
        "-oControlPersist=10m"@,
    ]
}

/// The command that opens a session on `host`: the pseudo-terminal flag where
/// `tty` holds, quiet mode, the host, and the remote command where there is
/// one.
pub open spec fn session_command(
    cache_home: Seq<char>,
    host: Seq<char>,
    tty: bool,
    command: Option<Seq<char>>,
) -> CommandView {
    CommandView {
        program: "ssh"@,
        args: base_options(cache_home, host) + (if tty {
            seq!["-t"@]
        } else {
            seq![]
        }) + seq!["-q"@, host] + (match command {
            Some(c) => seq![c],
            None => seq![],
        }),
    }
}

/// The command that copies `source` to `target`.
pub open spec fn copy_command(
    cache_home: Seq<char>,
    host: Seq<char>,
    source: Seq<char>,
    target: Seq<char>,
) -> CommandView {
    CommandView { program: "scp"@, args: base_options(cache_home, host) + seq![source, target] }
}

/// The path `path` on `host`, as the secure-copy client writes it.
pub open spec fn remote_path(host: Seq<char>, path: Seq<char>) -> Seq<char> {
    host + ":"@ + path
}

/// The command that copies the local path `from` to the path `to` on `host`.
pub open spec fn upload_command(
    cache_home: Seq<char>,
    host: Seq<char>,
    from: Seq<char>,
    to: Seq<char>,
) -> CommandView {
    copy_command(cache_home, host, from, remote_path(host, to))
}

/// The command that copies the path `from` on `host` to the local path `to`.
pub open spec fn download_command(
    cache_home: Seq<char>,
    host: Seq<char>,
    from: Seq<char>,
    to: Seq<char>,
) -> CommandView {
    copy_command(cache_home, host, remote_path(host, from), to)
}

/// The two arguments that forward the local port `port` to the same port on
/// the remote host.
pub open spec fn forward_pair(port: Seq<char>) -> Seq<Seq<char>> {
    seq!["-L"@, port + ":127.0.0.1:"@ + port]
}

/// The arguments that forward each of `ports`, in their order.
pub open spec fn forward_specs(ports: Seq<Seq<char>>) -> Seq<Seq<char>>
    decreases ports.len(),
{
    if ports.len() == 0 {
        seq![]
    } else {
        forward_specs(ports.drop_last()) + forward_pair(ports.last())
    }
}

/// Whether each of `ports` names a port.
pub open spec fn all_ports(ports: Seq<Seq<char>>) -> bool {
    forall|i: int| 0 <= i < ports.len() ==> is_port(#[trigger] ports[i])
}

/// Whether one of `ports` is privileged.
pub open spec fn any_low_port(ports: Seq<Seq<char>>) -> bool {
    exists|i: int| 0 <= i < ports.len() && is_low_port(#[trigger] ports[i])
}

/// The command that forwards `ports` to `host` and runs nothing there. One
/// privileged port puts the whole command under `sudo`.
pub open spec fn forward_command(
    cache_home: Seq<char>,
    host: Seq<char>,
    ports: Seq<Seq<char>>,
) -> CommandView {
    let args = base_options(cache_home, host) + seq!["-N"@] + forward_specs(ports) + seq![host];
    if any_low_port(ports) {
        CommandView { program: "sudo"@, args: seq!["ssh"@] + args }
    } else {
        CommandView { program: "ssh"@, args }
    }
}

/// The control socket of a host lies below the cache directory, and its
/// path ends with the file name that holds the host.
pub proof fn lemma_socket_below_cache(cache_home: Seq<char>, host: Seq<char>)
    ensures
        cache_home.is_prefix_of(control_socket(cache_home, host)),
        socket_file_name(host).is_suffix_of(control_socket(cache_home, host)),
{
    reveal_strlit("conn-");
    let name = socket_file_name(host);
    let path = control_socket(cache_home, host);
    assert(name[0] == 'c');
    assert(path.subrange(0, cache_home.len() as int) =~= cache_home);
    assert(path.subrange(path.len() - name.len(), path.len() as int) =~= name);
}

/// Without elevation, the options are what every command's arguments start
/// with; under `sudo` the program's name comes first, and then they.
pub proof fn lemma_base_options_first(
    cache_home: Seq<char>,
    host: Seq<char>,
    tty: bool,
    command: Option<Seq<char>>,
    from: Seq<char>,
    to: Seq<char>,
    ports: Seq<Seq<char>>,
)
    ensures
        base_options(cache_home, host).len() == 3,
        base_options(cache_home, host).is_prefix_of(
            session_command(cache_home, host, tty, command).args,
        ),
        base_options(cache_home, host).is_prefix_of(
            upload_command(cache_home, host, from, to).args,
        ),
        base_options(cache_home, host).is_prefix_of(
            download_command(cache_home, host, from, to).args,
        ),
        base_options(cache_home, host).is_prefix_of(
            forward_command(cache_home, host, ports).args.skip(
                if any_low_port(ports) {
                    1int
                } else {
                    0int
                },
            ),
        ),
        any_low_port(ports) ==> forward_command(cache_home, host, ports).args[0] == "ssh"@,
{
    let base = base_options(cache_home, host);
    let session = session_command(cache_home, host, tty, command).args;
    let up = upload_command(cache_home, host, from, to).args;
    let down = download_command(cache_home, host, from, to).args;
    let forward = forward_command(cache_home, host, ports).args;
    assert(session.subrange(0, 3) =~= base);
    assert(up.subrange(0, 3) =~= base);
    assert(down.subrange(0, 3) =~= base);
    if any_low_port(ports) {
        assert(forward.skip(1).subrange(0, 3) =~= base);
    } else {
        assert(forward.skip(0).subrange(0, 3) =~= base);
    }
}

/// Two hosts that differ have control sockets at different paths.
pub proof fn lemma_sockets_differ(cache_home: Seq<char>, host: Seq<char>, other: Seq<char>)
    requires
        host != other,
    ensures
        control_socket(cache_home, host) != control_socket(cache_home, other),
{
    reveal_strlit("conn-");
    let front = "conn-"@;
    let back = ".sock"@;
    let a = socket_file_name(host);
    let b = socket_file_name(other);
    assert(a[0] == 'c' && b[0] == 'c');
    if control_socket(cache_home, host) == control_socket(cache_home, other) {
        lemma_joined_injective(cache_home, a, b);
        assert(host.len() == other.len()) by {
            assert(a.len() == front.len() + host.len() + back.len());
            assert(b.len() == front.len() + other.len() + back.len());
        }
        assert forall|i: int| 0 <= i < host.len() implies host[i] == other[i] by {
            assert(a[front.len() + i] == host[i]);
            assert(b[front.len() + i] == other[i]);
        }
        assert(host =~= other);
    }
}

/// In the command that opens a session, the argument after the options is
/// the pseudo-terminal flag where `tty` holds, and only there.
pub proof fn lemma_pty_flag_follows_options(
    cache_home: Seq<char>,
    host: Seq<char>,
    tty: bool,
    command: Option<Seq<char>>,
)
    ensures
        session_command(cache_home, host, tty, command).args[3] == "-t"@ <==> tty,
{
    reveal_strlit("-t");
    reveal_strlit("-q");
    assert("-t"@[1] != "-q"@[1]);
}

/// The command that opens a session holds the pseudo-terminal flag where
/// `tty` holds, and only there: given that neither the host nor the remote
/// command is itself that flag, when `tty` does not hold.
pub proof fn lemma_pty_flag_iff_tty(
    cache_home: Seq<char>,
    host: Seq<char>,
    tty: bool,
    command: Option<Seq<char>>,
)
    requires
        tty || (host != "-t"@ && command != Some("-t"@)),
    ensures
        session_command(cache_home, host, tty, command).args.contains("-t"@) <==> tty,
{
    let args = session_command(cache_home, host, tty, command).args;
    reveal_strlit("-t");
    reveal_strlit("-q");
    reveal_strlit("-oControlMaster=auto");
    reveal_strlit("-oControlPath=");
    reveal_strlit("-oControlPersist=10m");
    if tty {
        assert(args[3] == "-t"@);
    } else {
        assert("-t"@[1] != "-q"@[1]);
        assert forall|i: int| 0 <= i < args.len() implies args[i] != "-t"@ by {
            if i == 1 {
                assert(args[1].len() >= "-oControlPath="@.len());
            }
        }
    }
}

/// The arguments that forward `ports` are two for each port: `-L`, and the
/// port on both sides of the loopback address.
pub proof fn lemma_forward_specs_index(ports: Seq<Seq<char>>, i: int)
    requires
        0 <= i < ports.len(),
    ensures
        forward_specs(ports).len() == 2 * ports.len(),
        forward_specs(ports)[2 * i] == "-L"@,
        forward_specs(ports)[2 * i + 1] == ports[i] + ":127.0.0.1:"@ + ports[i],
    decreases ports.len(),
{
    lemma_forward_specs_len(ports);
    let front = ports.drop_last();
    lemma_forward_specs_len(front);
    if i < front.len() {
        lemma_forward_specs_index(front, i);
    }
}

/// The arguments that forward `ports` are two for each port.
pub proof fn lemma_forward_specs_len(ports: Seq<Seq<char>>)
    ensures
        forward_specs(ports).len() == 2 * ports.len(),
    decreases ports.len(),
{
    if ports.len() > 0 {
        lemma_forward_specs_len(ports.drop_last());
    }
}

pub assume_specification[ isatty::stdout_isatty ]() -> bool;

/// Computes the path of the control socket of the connection to `host`.
pub fn socket_path(cache_home: &str, host: &str) -> (r: String)
    ensures
        r@ == control_socket(cache_home@, host@),
{
    let mut name: String = String::from_str("conn-");
    name.append(host);
    name.append(".sock");
    join(cache_home, name.as_str())
}

/// Builds the options that every command starts with.
pub fn ssh_opts(cache_home: &str, host: &str) -> (r: Vec<String>)
    ensures
        r.deep_view() == base_options(cache_home@, host@),
{
    let sock: String = socket_path(cache_home, host);
    let mut control_path: String = String::from_str("-oControlPath=");
    control_path.append(sock.as_str());
    let mut vec: Vec<String> = Vec::with_capacity(6);
    // "auto" means: open a connection where there is none, else share the
    // one that is there
    vec.push(String::from_str("-oControlMaster=auto"));
    vec.push(control_path);
    // the shared connection outlives its last user by ten minutes
    vec.push(String::from_str("-oControlPersist=10m"));
    assert(vec.deep_view() =~= base_options(cache_home@, host@));
    vec
}

/// Builds the command that opens a session on `host`, with the
/// pseudo-terminal flag where `tty` holds, and runs `command` there where
/// there is one.
pub fn ssh_session(cache_home: &str, host: &str, tty: bool, command: Option<&str>) -> (r:
    CommandSpec)
    ensures
        r@ == session_command(cache_home@, host@, tty, command.deep_view()),
{
    let mut args: Vec<String> = ssh_opts(cache_home, host);
    if tty {
        args.push(String::from_str("-t"));
    }
    args.push(String::from_str("-q"));
    args.push(String::from_str(host));
    match command {
        Some(c) => {
            args.push(String::from_str(c));
        },
        None => {},
    }
    let r = CommandSpec { program: String::from_str("ssh"), args };
    assert(r@.args =~= session_command(cache_home@, host@, tty, command.deep_view()).args);
    r
}

/// Builds the command that opens a session on `host`: with the
/// pseudo-terminal flag where standard output is a terminal.
fn ssh_command_with_host(cache_home: &str, host: &str, command: Option<&str>) -> (r: CommandSpec)
    ensures
        r@ == session_command(cache_home@, host@, true, command.deep_view()) || r@
            == session_command(cache_home@, host@, false, command.deep_view()),
{
    let tty: bool = isatty::stdout_isatty();
    ssh_session(cache_home, host, tty, command)
}

/// Builds the command that opens a session on the chosen host, and runs
/// `command` there where there is one. The command holds the pseudo-terminal
/// flag where standard output is a terminal.
pub fn ssh_command(cache_home: &str, store: &HostStore, command: Option<&str>) -> (r: SlinkResult<
    CommandSpec,
>)
    ensures
        match stored_host(store@) {
            Ok(host) => result_view(r) == Ok::<CommandView, ErrorView>(
                session_command(cache_home@, host, true, command.deep_view()),
            ) || result_view(r) == Ok::<CommandView, ErrorView>(
                session_command(cache_home@, host, false, command.deep_view()),
            ),
            Err(e) => result_view(r) == Err::<CommandView, ErrorView>(e),
        },
{
    let host: String = get_host(store)?;
    Ok(ssh_command_with_host(cache_home, host.as_str(), command))
}

/// Builds the command that copies `source` to `target`, one of them on
/// `host`.
fn scp(cache_home: &str, host: &str, source: String, target: String) -> (r: CommandSpec)
    ensures
        r@ == copy_command(cache_home@, host@, source@, target@),
{
    let mut args: Vec<String> = ssh_opts(cache_home, host);
    args.push(source);
    args.push(target);
    let r = CommandSpec { program: String::from_str("scp"), args };
    assert(r@.args =~= copy_command(cache_home@, host@, source@, target@).args);
    r
}

/// Writes the path `path` on `host` as the secure-copy client reads it.
fn remote(host: &str, path: &str) -> (r: String)
    ensures
        r@ == remote_path(host@, path@),
{
    let mut r: String = String::from_str(host);
    r.append(":");
    r.append(path);
    r
}

/// Builds the command that copies the local path `from` to the path `to` on
/// the chosen host.
pub fn scp_up(cache_home: &str, store: &HostStore, from: &str, to: &str) -> (r: SlinkResult<
    CommandSpec,
>)
    ensures
        result_view(r) == match stored_host(store@) {
            Ok(host) => Ok(upload_command(cache_home@, host, from@, to@)),
            Err(e) => Err(e),
        },
{
    let host: String = get_host(store)?;
    Ok(scp(cache_home, host.as_str(), String::from_str(from), remote(host.as_str(), to)))
}

/// Builds the command that copies the path `from` on the chosen host to the
/// local path `to`.
pub fn scp_down(cache_home: &str, store: &HostStore, from: &str, to: &str) -> (r: SlinkResult<
    CommandSpec,
>)
    ensures
        result_view(r) == match stored_host(store@) {
            Ok(host) => Ok(download_command(cache_home@, host, from@, to@)),
            Err(e) => Err(e),
        },
{
    let host: String = get_host(store)?;
    Ok(scp(cache_home, host.as_str(), remote(host.as_str(), from), String::from_str(to)))
}

/// What a command came to, given what running it gave: the exit code of the
/// program, or the cause for which it was not started.
pub fn run_outcome(run: Result<Option<i32>, String>) -> (r: SlinkResult<()>)
    ensures
        result_view(r) == match verdict(result_view(run)) {
            Ok(_) => Ok::<(), ErrorView>(()),
            Err(e) => Err(ErrorView::ProcessError(e)),
        },
{
    match run_result(run) {
        Ok(_) => Ok(()),
        Err(e) => Err(Error::ProcessError(e)),
    }
}

/// Whether each of `ports` names a port.
pub fn ports_are_valid(ports: &Vec<String>) -> (r: bool)
    ensures
        r == all_ports(ports.deep_view()),
{
    let mut i: usize = 0;
    while i < ports.len()
        invariant
            i <= ports.len(),
            forall|j: int| 0 <= j < i ==> is_port(#[trigger] ports.deep_view()[j]),
        decreases ports.len() - i,
    {
        if parse_port(ports[i].as_str()).is_none() {
            assert(!is_port(ports.deep_view()[i as int]));
            return false;
        }
        i += 1;
    }
    true
}

/// Builds the command that forwards each of `ports` to the same port on the
/// chosen host. One port below 1024 puts the whole command under `sudo`.
pub fn port_forward(cache_home: &str, store: &HostStore, ports: Vec<String>) -> (r: SlinkResult<
    CommandSpec,
>)
    requires
        stored_host(store@) is Ok ==> all_ports(ports.deep_view()),
    ensures
        result_view(r) == match stored_host(store@) {
            Ok(host) => Ok(forward_command(cache_home@, host, ports.deep_view())),
            Err(e) => Err(e),
        },
{
    let host: String = get_host(store)?;
    let ghost names = ports.deep_view();

    // a low port is privileged
    let mut has_low_port: bool = false;
    let mut port_forwards: Vec<String> = Vec::new();
    let mut i: usize = 0;
    while i < ports.len()
        invariant
            i <= ports.len(),
            names == ports.deep_view(),
            all_ports(names),
            has_low_port == any_low_port(names.subrange(0, i as int)),
            port_forwards.deep_view() == forward_specs(names.subrange(0, i as int)),
        decreases ports.len() - i,
    {
        let port: &str = ports[i].as_str();
        let ghost seen = names.subrange(0, i as int);
        let ghost next = names.subrange(0, i + 1);
        let ghost before = port_forwards.deep_view();
        assert(port@ == names[i as int]);
        assert(is_port(names[i as int]));
        let low: bool = match parse_port(port) {
            Some(number) => number < FIRST_UNPRIVILEGED_PORT,
            None => false,
        };
        assert(low == is_low_port(names[i as int]));
        proof {
            assert(next.drop_last() =~= seen);
            assert(next.last() == names[i as int]);
            if any_low_port(seen) {
                let j = choose|j: int| 0 <= j < seen.len() && is_low_port(#[trigger] seen[j]);
                assert(next[j] == seen[j]);
            }
            if low {
                assert(is_low_port(next[i as int]));
            }
            if any_low_port(next) {
                let j = choose|j: int| 0 <= j < next.len() && is_low_port(#[trigger] next[j]);
                if j < i {
                    assert(seen[j] == next[j]);
                }
            }
            assert(any_low_port(next) == (any_low_port(seen) || low));
        }
        if low {
            has_low_port = true;
        }
        port_forwards.push(String::from_str("-L"));
        let mut forward: String = String::from_str(port);
        forward.append(":127.0.0.1:");
        forward.append(port);
        port_forwards.push(forward);
        assert(port_forwards.deep_view() =~= before + forward_pair(names[i as int]));
        i += 1;
    }
    assert(names.subrange(0, ports.len() as int) =~= names);

    let mut args: Vec<String> = Vec::new();
    // under sudo, the program to start comes first
    if has_low_port {
        args.push(String::from_str("ssh"));
    }
    let mut opts: Vec<String> = ssh_opts(cache_home, host.as_str());
    let ghost opts_view = opts.deep_view();
    let ghost forwards_view = port_forwards.deep_view();
    args.append(&mut opts);
    // no remote command
    args.push(String::from_str("-N"));
    args.append(&mut port_forwards);
    args.push(host.clone());
    let program: &str = if has_low_port {
        "sudo"
    } else {
        "ssh"
    };
    let r = CommandSpec { program: String::from_str(program), args };
    assert(r@.args =~= forward_command(cache_home@, host@, names).args);
    Ok(r)
}

} // verus!
