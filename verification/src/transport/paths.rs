//! Socket directories and paths, family identifiers, the BTSP environment guard and the
//! per-platform transport choice. What the environment holds is handed in as values.

use vstd::prelude::*;
use crate::text::{join_path, path_join, str_equal, trim, trimmed};

verus! {

/// Platform bucket for transport selection.
#[derive(Clone, Copy, Debug, PartialEq, Eq, Structural)]
pub enum PlatformKind {
    Android,
    Windows,
    Unix,
}

/// The facts about the host that socket paths are derived from.
#[derive(Clone, Debug)]
pub struct SocketEnv {
    /// Platform the process runs on.
    pub platform: PlatformKind,
    /// Whether the platform is Linux.
    pub is_linux: bool,
    /// Value of `XDG_RUNTIME_DIR`, if set.
    pub xdg_runtime_dir: Option<String>,
    /// The system temporary directory.
    pub temp_dir: String,
}

/// [`SocketEnv`] with its strings as character sequences.
pub struct SocketEnvView {
    pub platform: PlatformKind,
    pub is_linux: bool,
    pub xdg_runtime_dir: Option<Seq<char>>,
    pub temp_dir: Seq<char>,
}

impl View for SocketEnv {
    type V = SocketEnvView;

    open spec fn view(&self) -> SocketEnvView {
        SocketEnvView {
            platform: self.platform,
            is_linux: self.is_linux,
            xdg_runtime_dir: match self.xdg_runtime_dir {
                Some(d) => Some(d@),
                None => None,
            },
            temp_dir: self.temp_dir@,
        }
    }
}

/// The ecosystem socket subdirectory `biomeos`.
pub open spec fn biomeos_subdir() -> Seq<char> {
    seq!['b', 'i', 'o', 'm', 'e', 'o', 's']
}

/// The Linux socket directory `/run/biomeos`.
pub open spec fn default_socket_dir() -> Seq<char> {
    seq!['/', 'r', 'u', 'n', '/'] + biomeos_subdir()
}

/// The socket file extension `.sock`.
pub open spec fn socket_extension() -> Seq<char> {
    seq!['.', 's', 'o', 'c', 'k']
}

/// The tarpc socket file extension `.tarpc.sock`.
pub open spec fn tarpc_socket_extension() -> Seq<char> {
    seq!['.', 't', 'a', 'r', 'p', 'c'] + socket_extension()
}

/// The loopback host `127.0.0.1` used for TCP fallbacks.
pub open spec fn default_rpc_host() -> Seq<char> {
    seq!['1', '2', '7', '.', '0', '.', '0', '.', '1']
}

fn biomeos_subdir_string() -> (r: String)
    ensures
        r@ == biomeos_subdir(),
{
    proof {
        reveal_strlit("biomeos");
    }
    let r = String::from_str("biomeos");
    assert(r@ =~= biomeos_subdir());
    r
}

/// The socket directory when `XDG_RUNTIME_DIR` is unset: `/run/biomeos` on Linux,
/// `{temp_dir}/biomeos` elsewhere.
pub open spec fn fallback_dir_spec(is_linux: bool, temp_dir: Seq<char>) -> Seq<char> {
    if is_linux {
        default_socket_dir()
    } else {
        path_join(temp_dir, biomeos_subdir())
    }
}

/// The socket directory when `XDG_RUNTIME_DIR` is unset.
pub fn unix_socket_dir_fallback(is_linux: bool, temp_dir: &str) -> (r: String)
    ensures
        r@ == fallback_dir_spec(is_linux, temp_dir@),
{
    if is_linux {
        proof {
            reveal_strlit("/run/biomeos");
        }
        let r = String::from_str("/run/biomeos");
        assert(r@ =~= default_socket_dir());
        r
    } else {
        let sub = biomeos_subdir_string();
        join_path(temp_dir, sub.as_str())
    }
}

/// The directory for path-based sockets: none on Android and Windows, else
/// `{XDG_RUNTIME_DIR}/biomeos` when that variable is set, else the fallback directory.
pub open spec fn socket_dir_spec(env: SocketEnvView) -> Option<Seq<char>> {
    if env.platform != PlatformKind::Unix {
        None
    } else {
        match env.xdg_runtime_dir {
            Some(d) => Some(path_join(d, biomeos_subdir())),
            None => Some(fallback_dir_spec(env.is_linux, env.temp_dir)),
        }
    }
}

/// The directory for path-based sockets, or `None` on platforms without them.
pub fn socket_dir(env: &SocketEnv) -> (r: Option<String>)
    ensures
        match r {
            Some(d) => socket_dir_spec(env@) == Some(d@),
            None => socket_dir_spec(env@) is None,
        },
{
    if env.platform != PlatformKind::Unix {
        return None;
    }
    match &env.xdg_runtime_dir {
        Some(d) => {
            let sub = biomeos_subdir_string();
            Some(join_path(d.as_str(), sub.as_str()))
        },
        None => Some(unix_socket_dir_fallback(env.is_linux, env.temp_dir.as_str())),
    }
}

/// On a Unix-like host a set `XDG_RUNTIME_DIR` decides the socket directory,
/// `{XDG_RUNTIME_DIR}/biomeos`, on Linux and elsewhere alike; only when it is unset does
/// the system matter: `/run/biomeos` on Linux, `{temp_dir}/biomeos` on other systems.
/// Android and Windows have no socket directory.
pub proof fn lemma_socket_dir_cases(env: SocketEnvView)
    ensures
        env.platform != PlatformKind::Unix ==> socket_dir_spec(env) is None,
        env.platform == PlatformKind::Unix && env.xdg_runtime_dir is Some ==> socket_dir_spec(env)
            == Some(path_join(env.xdg_runtime_dir->0, seq!['b', 'i', 'o', 'm', 'e', 'o', 's'])),
        env.platform == PlatformKind::Unix && env.xdg_runtime_dir is None && env.is_linux
            ==> socket_dir_spec(env) == Some(
            seq!['/', 'r', 'u', 'n', '/', 'b', 'i', 'o', 'm', 'e', 'o', 's'],
        ),
        env.platform == PlatformKind::Unix && env.xdg_runtime_dir is None && !env.is_linux
            ==> socket_dir_spec(env) == Some(
            path_join(env.temp_dir, seq!['b', 'i', 'o', 'm', 'e', 'o', 's']),
        ),
{
    assert(default_socket_dir() =~= seq!['/', 'r', 'u', 'n', '/', 'b', 'i', 'o', 'm', 'e', 'o', 's']);
}

/// The socket path of a primal: `{socket_dir}/{name}.sock`.
pub open spec fn socket_path_for_primal_spec(name: Seq<char>, env: SocketEnvView) -> Option<
    Seq<char>,
> {
    match socket_dir_spec(env) {
        Some(dir) => Some(path_join(dir, name + socket_extension())),
        None => None,
    }
}

fn push_socket_extension(s: &mut String)
    ensures
        final(s)@ == old(s)@ + socket_extension(),
{
    proof {
        reveal_strlit(".sock");
    }
    s.append(".sock");
    assert(".sock"@ =~= socket_extension());
}

fn push_tarpc_socket_extension(s: &mut String)
    ensures
        final(s)@ == old(s)@ + tarpc_socket_extension(),
{
    proof {
        reveal_strlit(".tarpc.sock");
    }
    s.append(".tarpc.sock");
    assert(".tarpc.sock"@ =~= tarpc_socket_extension());
}

/// The socket path of a primal, or `None` on platforms without path-based sockets.
pub fn socket_path_for_primal(name: &str, env: &SocketEnv) -> (r: Option<String>)
    ensures
        match r {
            Some(p) => socket_path_for_primal_spec(name@, env@) == Some(p@),
            None => socket_path_for_primal_spec(name@, env@) is None,
        },
{
    match socket_dir(env) {
        Some(dir) => {
            let mut filename = String::from_str(name);
            push_socket_extension(&mut filename);
            Some(join_path(dir.as_str(), filename.as_str()))
        },
        None => None,
    }
}

proof fn lemma_path_join_ends_with(base: Seq<char>, comp: Seq<char>)
    ensures
        crate::text::ends_with(path_join(base, comp), comp),
{
    let j = path_join(base, comp);
    if comp.len() > 0 && comp[0] == '/' {
        assert(j.subrange(0, j.len() as int) =~= j);
    } else if base.len() == 0 || base.last() == '/' {
        assert(j.subrange(j.len() - comp.len(), j.len() as int) =~= comp);
    } else {
        assert(j.subrange(j.len() - comp.len(), j.len() as int) =~= comp);
    }
}

/// A primal's socket path, where the platform has one, ends with `{name}.sock`; it is
/// missing exactly on platforms other than Unix.
pub proof fn lemma_socket_path_names_primal(name: Seq<char>, env: SocketEnvView)
    ensures
        match socket_path_for_primal_spec(name, env) {
            Some(p) => crate::text::ends_with(p, name + socket_extension()),
            None => env.platform != PlatformKind::Unix,
        },
{
    match socket_dir_spec(env) {
        Some(dir) => lemma_path_join_ends_with(dir, name + socket_extension()),
        None => {},
    }
}

/// The word `default`, which stands for no family.
pub open spec fn default_word() -> Seq<char> {
    seq!['d', 'e', 'f', 'a', 'u', 'l', 't']
}

/// The family identifier: the primal-specific value when set, else the ecosystem-wide
/// one; trimmed; none when unset, blank or `default`.
pub open spec fn family_id_spec(primal_value: Option<Seq<char>>, ecosystem_value: Option<
    Seq<char>,
>) -> Option<Seq<char>> {
    let raw = if primal_value is Some {
        primal_value
    } else {
        ecosystem_value
    };
    match raw {
        Some(v) => if trim(v).len() == 0 || trim(v) == default_word() {
            None
        } else {
            Some(trim(v))
        },
        None => None,
    }
}

/// The character sequences of an optional string.
pub open spec fn opt_view(o: Option<String>) -> Option<Seq<char>> {
    match o {
        Some(s) => Some(s@),
        None => None,
    }
}

/// The family identifier from the values of `{PREFIX}_FAMILY_ID` (checked first) and
/// `FAMILY_ID`.
pub fn read_family_id(primal_value: Option<String>, ecosystem_value: Option<String>) -> (r:
    Option<String>)
    ensures
        opt_view(r) == family_id_spec(opt_view(primal_value), opt_view(ecosystem_value)),
{
    let raw = match primal_value {
        Some(v) => Some(v),
        None => ecosystem_value,
    };
    match raw {
        Some(v) => {
            let t = trimmed(v.as_str());
            proof {
                reveal_strlit("default");
                assert("default"@ =~= default_word());
            }
            if t.as_str().unicode_len() == 0 || str_equal(t.as_str(), "default") {
                None
            } else {
                Some(t)
            }
        },
        None => None,
    }
}

/// The name of the variable that holds a primal's family: `{prefix}_FAMILY_ID`.
pub fn family_id_env_key(primal_env_prefix: &str) -> (r: String)
    ensures
        r@ == primal_env_prefix@ + "_FAMILY_ID"@,
{
    let mut r = String::from_str(primal_env_prefix);
    r.append("_FAMILY_ID");
    r
}

/// The family-scoped file name `{name}-{family}{ext}`, or `{name}{ext}` without family.
pub open spec fn scoped_file_name(name: Seq<char>, family: Option<Seq<char>>, ext: Seq<char>) -> Seq<
    char,
> {
    match family {
        Some(f) => name + seq!['-'] + f + ext,
        None => name + ext,
    }
}

/// The family-scoped socket path `{socket_dir}/{name}[-{family}].sock`.
pub open spec fn family_scoped_socket_path_spec(
    name: Seq<char>,
    primal_value: Option<Seq<char>>,
    ecosystem_value: Option<Seq<char>>,
    env: SocketEnvView,
) -> Option<Seq<char>> {
    match socket_dir_spec(env) {
        Some(dir) => Some(
            path_join(
                dir,
                scoped_file_name(
                    name,
                    family_id_spec(primal_value, ecosystem_value),
                    socket_extension(),
                ),
            ),
        ),
        None => None,
    }
}

/// The family-scoped tarpc socket path `{socket_dir}/{name}[-{family}].tarpc.sock`.
pub open spec fn family_scoped_tarpc_socket_path_spec(
    name: Seq<char>,
    primal_value: Option<Seq<char>>,
    ecosystem_value: Option<Seq<char>>,
    env: SocketEnvView,
) -> Option<Seq<char>> {
    match socket_dir_spec(env) {
        Some(dir) => Some(
            path_join(
                dir,
                scoped_file_name(
                    name,
                    family_id_spec(primal_value, ecosystem_value),
                    tarpc_socket_extension(),
                ),
            ),
        ),
        None => None,
    }
}

fn scoped_name_base(name: &str, family: &Option<String>) -> (r: String)
    ensures
        r@ == match family {
            Some(f) => name@ + seq!['-'] + f@,
            None => name@,
        },
{
    let mut filename = String::from_str(name);
    match family {
        Some(f) => {
            filename.push('-');
            filename.append(f.as_str());
        },
        None => {},
    }
    filename
}

/// Without a family identifier the family-scoped socket path is the plain socket path.
pub proof fn lemma_family_scoped_without_family(
    name: Seq<char>,
    primal_value: Option<Seq<char>>,
    ecosystem_value: Option<Seq<char>>,
    env: SocketEnvView,
)
    requires
        family_id_spec(primal_value, ecosystem_value) is None,
    ensures
        family_scoped_socket_path_spec(name, primal_value, ecosystem_value, env)
            == socket_path_for_primal_spec(name, env),
{
}

/// A family identifier, when there is one, is trimmed, non-empty and not `default`.
pub proof fn lemma_family_id_shape(
    primal_value: Option<Seq<char>>,
    ecosystem_value: Option<Seq<char>>,
)
    ensures
        match family_id_spec(primal_value, ecosystem_value) {
            Some(f) => f.len() > 0 && f != default_word() && exists|v: Seq<char>| f == trim(v),
            None => true,
        },
{
    match family_id_spec(primal_value, ecosystem_value) {
        Some(f) => {
            let v = if primal_value is Some {
                primal_value.unwrap()
            } else {
                ecosystem_value.unwrap()
            };
            assert(f == trim(v));
        },
        None => {},
    }
}

/// The primal-specific `{PREFIX}_FAMILY_ID`, when set, decides the family and the
/// ecosystem-wide `FAMILY_ID` is not read; when it is unset, `FAMILY_ID` decides. A set
/// value that is not blank or `default` once trimmed is the family, trimmed.
pub proof fn lemma_family_id_source(
    primal_value: Option<Seq<char>>,
    ecosystem_value: Option<Seq<char>>,
)
    ensures
        primal_value is Some ==> family_id_spec(primal_value, ecosystem_value) == family_id_spec(
            primal_value,
            None,
        ),
        primal_value is None ==> family_id_spec(primal_value, ecosystem_value) == family_id_spec(
            ecosystem_value,
            None,
        ),
        primal_value is Some && trim(primal_value->0).len() > 0 && trim(primal_value->0) != seq![
            'd',
            'e',
            'f',
            'a',
            'u',
            'l',
            't',
        ] ==> family_id_spec(primal_value, ecosystem_value) == Some(trim(primal_value->0)),
        primal_value is None && ecosystem_value is Some && trim(ecosystem_value->0).len() > 0
            && trim(ecosystem_value->0) != seq!['d', 'e', 'f', 'a', 'u', 'l', 't']
            ==> family_id_spec(primal_value, ecosystem_value) == Some(trim(ecosystem_value->0)),
{
    assert(default_word() =~= seq!['d', 'e', 'f', 'a', 'u', 'l', 't']);
}

proof fn lemma_join_swaps_extension(dir: Seq<char>, base: Seq<char>)
    ensures
        path_join(dir, base + tarpc_socket_extension()) == path_join(
            dir,
            base + socket_extension(),
        ).subrange(0, path_join(dir, base + socket_extension()).len() - 5)
            + tarpc_socket_extension(),
{
    let a = base + socket_extension();
    let b = base + tarpc_socket_extension();
    assert(a.len() > 0 && b.len() > 0);
    assert(a[0] == b[0]) by {
        if base.len() == 0 {
            assert(a[0] == '.' && b[0] == '.');
        } else {
            assert(a[0] == base[0] && b[0] == base[0]);
        }
    }
    let ja = path_join(dir, a);
    if a[0] == '/' {
        assert(ja.subrange(0, ja.len() - 5) =~= base);
    } else if dir.len() == 0 || dir.last() == '/' {
        assert(ja.subrange(0, ja.len() - 5) =~= dir + base);
        assert(path_join(dir, b) =~= dir + base + tarpc_socket_extension());
    } else {
        assert(ja.subrange(0, ja.len() - 5) =~= dir.push('/') + base);
        assert(path_join(dir, b) =~= dir.push('/') + base + tarpc_socket_extension());
    }
}

/// The tarpc socket sits beside the JSON-RPC socket: one exists exactly when the other
/// does, and the tarpc path is the JSON-RPC family-scoped path with its `.sock` ending
/// replaced by `.tarpc.sock`, so both carry the family that `read_family_id` gives.
/// With a socket directory and a family `f` the tarpc path is
/// `{socket_dir}/{name}-{f}.tarpc.sock`; with no family it is `{socket_dir}/{name}.tarpc.sock`.
pub proof fn lemma_tarpc_path_beside_json_path(
    name: Seq<char>,
    primal_value: Option<Seq<char>>,
    ecosystem_value: Option<Seq<char>>,
    env: SocketEnvView,
)
    ensures
        family_scoped_tarpc_socket_path_spec(name, primal_value, ecosystem_value, env) is Some
            <==> family_scoped_socket_path_spec(name, primal_value, ecosystem_value, env) is Some,
        family_scoped_socket_path_spec(name, primal_value, ecosystem_value, env) is Some ==> {
            let json = family_scoped_socket_path_spec(
                name,
                primal_value,
                ecosystem_value,
                env,
            )->0;
            &&& json.subrange(json.len() - 5, json.len() as int) == seq!['.', 's', 'o', 'c', 'k']
            &&& family_scoped_tarpc_socket_path_spec(name, primal_value, ecosystem_value, env)->0
                == json.subrange(0, json.len() - 5) + seq![
                '.',
                't',
                'a',
                'r',
                'p',
                'c',
                '.',
                's',
                'o',
                'c',
                'k',
            ]
        },
        socket_dir_spec(env) is Some && family_id_spec(primal_value, ecosystem_value) is Some
            ==> family_scoped_tarpc_socket_path_spec(name, primal_value, ecosystem_value, env)
            == Some(
            path_join(
                socket_dir_spec(env)->0,
                name + seq!['-'] + family_id_spec(primal_value, ecosystem_value)->0 + seq![
                    '.',
                    't',
                    'a',
                    'r',
                    'p',
                    'c',
                    '.',
                    's',
                    'o',
                    'c',
                    'k',
                ],
            ),
        ),
        socket_dir_spec(env) is Some && family_id_spec(primal_value, ecosystem_value) is None
            ==> family_scoped_tarpc_socket_path_spec(name, primal_value, ecosystem_value, env)
            == Some(
            path_join(
                socket_dir_spec(env)->0,
                name + seq!['.', 't', 'a', 'r', 'p', 'c', '.', 's', 'o', 'c', 'k'],
            ),
        ),
{
    assert(tarpc_socket_extension() =~= seq!['.', 't', 'a', 'r', 'p', 'c', '.', 's', 'o', 'c', 'k']);
    assert(socket_extension() =~= seq!['.', 's', 'o', 'c', 'k']);
    match socket_dir_spec(env) {
        Some(dir) => {
            let fam = family_id_spec(primal_value, ecosystem_value);
            let base = match fam {
                Some(f) => name + seq!['-'] + f,
                None => name,
            };
            assert(scoped_file_name(name, fam, socket_extension()) =~= base + socket_extension());
            assert(scoped_file_name(name, fam, tarpc_socket_extension()) =~= base
                + tarpc_socket_extension());
            lemma_join_swaps_extension(dir, base);
            lemma_path_join_ends_with(dir, base + socket_extension());
            let json = path_join(dir, base + socket_extension());
            assert(json.subrange(json.len() - 5, json.len() as int) =~= (base
                + socket_extension()).subrange(base.len() as int, base.len() + 5int));
        },
        None => {},
    }
}

/// The family-scoped (BTSP) socket path, from the values of `{PREFIX}_FAMILY_ID` and
/// `FAMILY_ID`; `None` on platforms without path-based sockets.
pub fn family_scoped_socket_path(
    name: &str,
    primal_value: Option<String>,
    ecosystem_value: Option<String>,
    env: &SocketEnv,
) -> (r: Option<String>)
    ensures
        opt_view(r) == family_scoped_socket_path_spec(
            name@,
            opt_view(primal_value),
            opt_view(ecosystem_value),
            env@,
        ),
{
    match socket_dir(env) {
        Some(dir) => {
            let family = read_family_id(primal_value, ecosystem_value);
            let mut filename = scoped_name_base(name, &family);
            push_socket_extension(&mut filename);
            Some(join_path(dir.as_str(), filename.as_str()))
        },
        None => None,
    }
}

/// The family-scoped tarpc socket path, from the values of `{PREFIX}_FAMILY_ID` and
/// `FAMILY_ID`; `None` on platforms without path-based sockets.
pub fn family_scoped_tarpc_socket_path(
    name: &str,
    primal_value: Option<String>,
    ecosystem_value: Option<String>,
    env: &SocketEnv,
) -> (r: Option<String>)
    ensures
        opt_view(r) == family_scoped_tarpc_socket_path_spec(
            name@,
            opt_view(primal_value),
            opt_view(ecosystem_value),
            env@,
        ),
{
    match socket_dir(env) {
        Some(dir) => {
            let family = read_family_id(primal_value, ecosystem_value);
            let mut filename = scoped_name_base(name, &family);
            push_tarpc_socket_extension(&mut filename);
            Some(join_path(dir.as_str(), filename.as_str()))
        },
        None => None,
    }
}

/// A `BIOMEOS_INSECURE` value is truthy when, trimmed, it is `1`, `true` or `yes`.
pub open spec fn insecure_spec(value: Option<Seq<char>>) -> bool {
    match value {
        Some(v) => trim(v) == seq!['1'] || trim(v) == seq!['t', 'r', 'u', 'e'] || trim(v)
            == seq!['y', 'e', 's'],
        None => false,
    }
}

/// Whether the value of `BIOMEOS_INSECURE` asks for development mode.
pub fn is_biomeos_insecure(value: Option<&str>) -> (r: bool)
    ensures
        r == insecure_spec(match value {
            Some(v) => Some(v@),
            None => None,
        }),
{
    match value {
        Some(v) => {
            let t = trimmed(v);
            proof {
                reveal_strlit("1");
                reveal_strlit("true");
                reveal_strlit("yes");
                assert("1"@ =~= seq!['1']);
                assert("true"@ =~= seq!['t', 'r', 'u', 'e']);
                assert("yes"@ =~= seq!['y', 'e', 's']);
            }
            str_equal(t.as_str(), "1") || str_equal(t.as_str(), "true") || str_equal(
                t.as_str(),
                "yes",
            )
        },
        None => false,
    }
}

/// BTSP configuration error.
#[derive(Clone, Debug, PartialEq, Eq, Structural)]
pub enum BtspConfigError {
    /// A family identifier (production) and `BIOMEOS_INSECURE` (development) are both set.
    FamilyInsecureConflict,
}

impl BtspConfigError {
    /// The error message.
    pub fn to_string(&self) -> (s: String)
        ensures
            s@ == "BTSP conflict: FAMILY_ID is set (production mode) but BIOMEOS_INSECURE=1 (development mode). These are mutually exclusive. Unset BIOMEOS_INSECURE for production, or unset FAMILY_ID for development."@,
    {
        String::from_str(
            "BTSP conflict: FAMILY_ID is set (production mode) but BIOMEOS_INSECURE=1 (development mode). These are mutually exclusive. Unset BIOMEOS_INSECURE for production, or unset FAMILY_ID for development.",
        )
    }
}

/// Refuses a family identifier together with insecure mode. Takes the values of
/// `{PREFIX}_FAMILY_ID`, `FAMILY_ID` and `BIOMEOS_INSECURE`.
pub fn btsp_env_guard(
    primal_value: Option<String>,
    ecosystem_value: Option<String>,
    insecure_value: Option<&str>,
) -> (r: Result<(), BtspConfigError>)
    ensures
        r is Err <==> (family_id_spec(opt_view(primal_value), opt_view(ecosystem_value)) is Some
            && insecure_spec(
            match insecure_value {
                Some(v) => Some(v@),
                None => None,
            },
        )),
        r is Err ==> r == Err::<(), BtspConfigError>(BtspConfigError::FamilyInsecureConflict),
{
    let family = read_family_id(primal_value, ecosystem_value);
    let insecure = is_biomeos_insecure(insecure_value);
    if family.is_some() && insecure {
        return Err(BtspConfigError::FamilyInsecureConflict);
    }
    Ok(())
}

/// Transport hint for primal IPC, chosen per platform.
#[derive(Clone, Debug, PartialEq, Eq)]
pub enum TransportHint {
    /// Path-based Unix domain socket.
    UnixSocket(String),
    /// TCP connection.
    Tcp {
        /// Host to connect to.
        host: String,
        /// Port number.
        port: u16,
    },
    /// Abstract namespace socket.
    AbstractSocket(String),
}

/// [`TransportHint`] with its strings as character sequences.
pub enum HintView {
    UnixSocket(Seq<char>),
    Tcp { host: Seq<char>, port: u16 },
    AbstractSocket(Seq<char>),
}

impl View for TransportHint {
    type V = HintView;

    open spec fn view(&self) -> HintView {
        match self {
            TransportHint::UnixSocket(p) => HintView::UnixSocket(p@),
            TransportHint::Tcp { host, port } => HintView::Tcp { host: host@, port: *port },
            TransportHint::AbstractSocket(n) => HintView::AbstractSocket(n@),
        }
    }
}

/// A Unix socket at `socket_path` when there is one, else TCP to `127.0.0.1`.
pub open spec fn unix_transport_spec(socket_path: Option<Seq<char>>, port: u16) -> HintView {
    match socket_path {
        Some(p) => HintView::UnixSocket(p),
        None => HintView::Tcp { host: default_rpc_host(), port },
    }
}

fn tcp_fallback(port: u16) -> (r: TransportHint)
    ensures
        r@ == (HintView::Tcp { host: default_rpc_host(), port }),
{
    proof {
        reveal_strlit("127.0.0.1");
    }
    let host = String::from_str("127.0.0.1");
    assert(host@ =~= default_rpc_host());
    TransportHint::Tcp { host, port }
}

/// The Unix-like transport: the socket path when there is one, else TCP to localhost.
pub fn unix_transport_from_socket_path(socket_path: Option<String>, port: u16) -> (r:
    TransportHint)
    ensures
        r@ == unix_transport_spec(opt_view(socket_path), port),
{
    match socket_path {
        Some(p) => TransportHint::UnixSocket(p),
        None => tcp_fallback(port),
    }
}

/// The preferred transport on `platform`: an abstract socket `biomeos.{name}` on
/// Android, TCP to localhost on Windows, and on Unix the primal's socket path (derived
/// from the host facts in `env`) or TCP to localhost without one.
pub open spec fn preferred_transport_spec(
    name: Seq<char>,
    port: u16,
    platform: PlatformKind,
    env: SocketEnvView,
) -> HintView {
    match platform {
        PlatformKind::Android => HintView::AbstractSocket(biomeos_subdir() + seq!['.'] + name),
        PlatformKind::Windows => HintView::Tcp { host: default_rpc_host(), port },
        PlatformKind::Unix => unix_transport_spec(socket_path_for_primal_spec(name, env), port),
    }
}

/// The preferred transport for a primal on `platform`.
pub fn preferred_transport_with_platform(
    primal_name: &str,
    port: u16,
    platform: PlatformKind,
    env: &SocketEnv,
) -> (r: TransportHint)
    ensures
        r@ == preferred_transport_spec(primal_name@, port, platform, env@),
{
    match platform {
        PlatformKind::Android => {
            let mut name = biomeos_subdir_string();
            name.push('.');
            name.append(primal_name);
            assert(name@ =~= biomeos_subdir() + seq!['.'] + primal_name@);
            TransportHint::AbstractSocket(name)
        },
        PlatformKind::Windows => tcp_fallback(port),
        PlatformKind::Unix => unix_transport_from_socket_path(
            socket_path_for_primal(primal_name, env),
            port,
        ),
    }
}

/// On Unix the preferred transport is the primal's Unix socket exactly when it has a
/// socket path, which every Unix-like host gives it (`{socket_dir}/{name}.sock`); TCP to
/// `127.0.0.1` on the given port is left for a host without path-based sockets. Android
/// gets the abstract socket `biomeos.{name}` and Windows TCP to `127.0.0.1`, whatever
/// the host facts.
pub proof fn lemma_preferred_transport_cases(name: Seq<char>, port: u16, env: SocketEnvView)
    ensures
        match socket_path_for_primal_spec(name, env) {
            Some(p) => preferred_transport_spec(name, port, PlatformKind::Unix, env)
                == HintView::UnixSocket(p),
            None => preferred_transport_spec(name, port, PlatformKind::Unix, env) == (HintView::Tcp {
                host: seq!['1', '2', '7', '.', '0', '.', '0', '.', '1'],
                port,
            }),
        },
        env.platform == PlatformKind::Unix ==> socket_path_for_primal_spec(name, env) is Some,
        env.platform == PlatformKind::Unix ==> preferred_transport_spec(
            name,
            port,
            PlatformKind::Unix,
            env,
        ) == HintView::UnixSocket(
            path_join(socket_dir_spec(env)->0, name + seq!['.', 's', 'o', 'c', 'k']),
        ),
        preferred_transport_spec(name, port, PlatformKind::Android, env) == HintView::AbstractSocket(
            seq!['b', 'i', 'o', 'm', 'e', 'o', 's', '.'] + name,
        ),
        preferred_transport_spec(name, port, PlatformKind::Windows, env) == (HintView::Tcp {
            host: seq!['1', '2', '7', '.', '0', '.', '0', '.', '1'],
            port,
        }),
{
    assert(biomeos_subdir() + seq!['.'] + name =~= seq!['b', 'i', 'o', 'm', 'e', 'o', 's', '.']
        + name);
    assert(default_rpc_host() =~= seq!['1', '2', '7', '.', '0', '.', '0', '.', '1']);
    assert(socket_extension() =~= seq!['.', 's', 'o', 'c', 'k']);
}

} // verus!
