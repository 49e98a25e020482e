//! Remote-desktop clients: which candidates to look for on each platform,
//! which found client to prefer, and the arguments that launch a client on
//! a connection's local endpoint.

use vstd::prelude::*;
use crate::cli::{owned, texts};
use crate::model::{BoundaryConnection, DetectedRdpClients, RdpClientInfo};
use crate::settings::RdpConfig;
use crate::text::{contains_text, decimal_text, find_char, has_substring, str_eq, text_from, text_until, u16_to_text};

verus! {

/// `host:port` of a local endpoint.
pub open spec fn endpoint_text(address: Seq<char>, port: u16) -> Seq<char> {
    address + ":"@ + decimal_text(port as nat)
}

/// The `host:port` text of a local endpoint.
pub fn endpoint(address: &str, port: u16) -> (r: String)
    ensures
        r@ == endpoint_text(address@, port),
{
    let mut out = owned(address);
    out.append(":");
    let digits = u16_to_text(port);
    out.append(digits.as_str());
    out
}

/// The width of a `<width>x<height>` resolution: the text before the first
/// `x` (all of it when there is none).
pub open spec fn resolution_width(res: Seq<char>) -> Seq<char> {
    if exists|i: int| 0 <= i < res.len() && res[i] == 'x' {
        res.subrange(0, first_x(res))
    } else {
        res
    }
}

/// The height of a `<width>x<height>` resolution: the text between the first
/// `x` and the next one, or `1080` when there is no `x`.
pub open spec fn resolution_height(res: Seq<char>) -> Seq<char> {
    if exists|i: int| 0 <= i < res.len() && res[i] == 'x' {
        let rest = res.subrange(first_x(res) + 1, res.len() as int);
        if exists|i: int| 0 <= i < rest.len() && rest[i] == 'x' {
            rest.subrange(0, first_x(rest))
        } else {
            rest
        }
    } else {
        "1080"@
    }
}

/// The position of the first `x` of a text that holds one.
pub open spec fn first_x(s: Seq<char>) -> int {
    choose|i: int| 0 <= i < s.len() && s[i] == 'x' && forall|j: int| 0 <= j < i ==> s[j] != 'x'
}

proof fn lemma_first_x(s: Seq<char>, i: int)
    requires
        0 <= i < s.len(),
        s[i] == 'x',
        forall|j: int| 0 <= j < i ==> s[j] != 'x',
    ensures
        first_x(s) == i,
{
    let k = first_x(s);
    assert(0 <= k < s.len() && s[k] == 'x' && forall|j: int| 0 <= j < k ==> s[j] != 'x');
}

fn split_resolution(res: &str) -> (r: (String, String))
    ensures
        r.0@ == resolution_width(res@),
        r.1@ == resolution_height(res@),
{
    match find_char(res, 'x') {
        None => (owned(res), owned("1080")),
        Some(i) => {
            proof {
                lemma_first_x(res@, i as int);
            }
            let width = text_until(res, i);
            let rest = text_from(res, i + 1);
            let height = match find_char(rest.as_str(), 'x') {
                None => rest,
                Some(j) => {
                    proof {
                        lemma_first_x(rest@, j as int);
                    }
                    text_until(rest.as_str(), j)
                },
            };
            (width, height)
        },
    }
}

/// The arguments that launch `client` on the endpoint `ep` on `platform`:
/// each known client gets its own conventions, any other the bare endpoint.
pub open spec fn launch_args(platform: Seq<char>, client: Seq<char>, ep: Seq<char>, fullscreen: bool, res: Seq<char>) -> Seq<Seq<char>> {
    let sized = res != "auto"@;
    if platform == "windows"@ && has_substring(client, "Microsoft Terminal Services Client"@) {
        seq![ep] + (if fullscreen { seq!["/f"@] } else { seq![] }) + (if sized {
            seq!["/w"@, resolution_width(res), "/h"@, resolution_height(res)]
        } else {
            seq![]
        })
    } else if platform == "macos"@ && has_substring(client, "Microsoft Remote Desktop"@) {
        seq!["rdp://"@, ep]
    } else if platform == "linux"@ && client == "xfreerdp"@ {
        seq!["/v:"@ + ep] + (if fullscreen { seq!["/f"@] } else { seq![] }) + (if sized {
            seq!["/size:"@ + res]
        } else {
            seq![]
        })
    } else if platform == "linux"@ && client == "rdesktop"@ {
        seq![ep] + (if fullscreen { seq!["-f"@] } else { seq![] }) + (if sized { seq!["-g"@, res] } else { seq![] })
    } else if platform == "linux"@ && client == "remmina"@ {
        seq!["rdp://"@ + ep]
    } else {
        seq![ep]
    }
}

fn prefixed(prefix: &str, s: &str) -> (r: String)
    ensures
        r@ == prefix@ + s@,
{
    let mut out = owned(prefix);
    out.append(s);
    out
}

/// The arguments that launch `client` on the local endpoint of `connection`
/// on `platform`, with the fullscreen and resolution settings of `config`.
pub fn rdp_launch_args(platform: &str, client: &RdpClientInfo, connection: &BoundaryConnection, config: &RdpConfig) -> (r: Vec<String>)
    ensures
        texts(r@) == launch_args(
            platform@,
            client.name@,
            endpoint_text(connection.local_address@, connection.local_port),
            config.fullscreen,
            config.resolution@,
        ),
{
    let ep = endpoint(connection.local_address.as_str(), connection.local_port);
    let name = client.name.as_str();
    let res = config.resolution.as_str();
    let sized = !str_eq(res, "auto");
    let mut args: Vec<String> = Vec::new();
    if str_eq(platform, "windows") && contains_text(name, "Microsoft Terminal Services Client") {
        args.push(ep);
        if config.fullscreen {
            args.push(owned("/f"));
        }
        if sized {
            let (w, h) = split_resolution(res);
            args.push(owned("/w"));
            args.push(w);
            args.push(owned("/h"));
            args.push(h);
        }
    } else if str_eq(platform, "macos") && contains_text(name, "Microsoft Remote Desktop") {
        args.push(owned("rdp://"));
        args.push(ep);
    } else if str_eq(platform, "linux") && str_eq(name, "xfreerdp") {
        args.push(prefixed("/v:", ep.as_str()));
        if config.fullscreen {
            args.push(owned("/f"));
        }
        if sized {
            args.push(prefixed("/size:", res));
        }
    } else if str_eq(platform, "linux") && str_eq(name, "rdesktop") {
        args.push(ep);
        if config.fullscreen {
            args.push(owned("-f"));
        }
        if sized {
            args.push(owned("-g"));
            args.push(owned(res));
        }
    } else if str_eq(platform, "linux") && str_eq(name, "remmina") {
        args.push(prefixed("rdp://", ep.as_str()));
    } else {
        args.push(ep);
    }
    assert(texts(args@) =~= launch_args(
        platform@,
        client.name@,
        endpoint_text(connection.local_address@, connection.local_port),
        config.fullscreen,
        config.resolution@,
    ));
    args
}

/// A client to look for: its name, where it is (a command on the search
/// path, or a file), and its kind.
#[derive(Debug)]
pub struct RdpCandidate {
    pub name: String,
    pub location: String,
    pub client_type: String,
    /// `location` is a command looked up on the search path, not a file path.
    pub is_command: bool,
}

/// The clients looked for on each platform, as (name, location, kind,
/// location is a command).
pub open spec fn candidate_table(platform: Seq<char>) -> Seq<(Seq<char>, Seq<char>, Seq<char>, bool)> {
    if platform == "windows"@ {
        seq![
            ("Microsoft Terminal Services Client"@, "mstsc"@, "builtin"@, true),
            ("Royal TS"@, "C:\\Program Files\\Royal TS V6\\RoyalTS.exe"@, "third_party"@, false),
            ("Remote Desktop Manager"@, "C:\\Program Files\\Devolutions\\Remote Desktop Manager\\RemoteDesktopManager.exe"@, "third_party"@, false),
            ("Jump Desktop"@, "C:\\Program Files\\Jump Desktop\\JumpDesktop.exe"@, "third_party"@, false),
        ]
    } else if platform == "macos"@ {
        seq![
            ("Microsoft Remote Desktop"@, "/Applications/Microsoft Remote Desktop.app/Contents/MacOS/Microsoft Remote Desktop"@, "microsoft"@, false),
            ("Royal TSX"@, "/Applications/Royal TSX.app/Contents/MacOS/Royal TSX"@, "third_party"@, false),
            ("Jump Desktop"@, "/Applications/Jump Desktop.app/Contents/MacOS/Jump Desktop"@, "third_party"@, false),
            ("Screens for Organizations"@, "/Applications/Screens for Organizations.app/Contents/MacOS/Screens for Organizations"@, "third_party"@, false),
            ("Remote Desktop Scanner"@, "/Applications/Remote Desktop Scanner.app/Contents/MacOS/Remote Desktop Scanner"@, "third_party"@, false),
        ]
    } else if platform == "linux"@ {
        seq![
            ("xfreerdp"@, "xfreerdp"@, "freerdp"@, true),
            ("rdesktop"@, "rdesktop"@, "rdesktop"@, true),
            ("remmina"@, "remmina"@, "remmina"@, true),
            ("vinagre"@, "vinagre"@, "vinagre"@, true),
            ("tsclient"@, "tsclient"@, "tsclient"@, true),
        ]
    } else {
        seq![]
    }
}

/// The entry of a candidate.
pub open spec fn candidate_entry(c: RdpCandidate) -> (Seq<char>, Seq<char>, Seq<char>, bool) {
    (c.name@, c.location@, c.client_type@, c.is_command)
}

fn candidate(name: &str, location: &str, client_type: &str, is_command: bool) -> (r: RdpCandidate)
    ensures
        candidate_entry(r) == (name@, location@, client_type@, is_command),
{
    RdpCandidate { name: owned(name), location: owned(location), client_type: owned(client_type), is_command }
}

/// The clients to look for on `platform`; none on an unknown platform.
pub fn rdp_candidates(platform: &str) -> (r: Vec<RdpCandidate>)
    ensures
        r@.map_values(|c: RdpCandidate| candidate_entry(c)) == candidate_table(platform@),
{
    let mut out: Vec<RdpCandidate> = Vec::new();
    if str_eq(platform, "windows") {
        out.push(candidate("Microsoft Terminal Services Client", "mstsc", "builtin", true));
        out.push(candidate("Royal TS", "C:\\Program Files\\Royal TS V6\\RoyalTS.exe", "third_party", false));
        out.push(candidate("Remote Desktop Manager", "C:\\Program Files\\Devolutions\\Remote Desktop Manager\\RemoteDesktopManager.exe", "third_party", false));
        out.push(candidate("Jump Desktop", "C:\\Program Files\\Jump Desktop\\JumpDesktop.exe", "third_party", false));
    } else if str_eq(platform, "macos") {
        out.push(candidate("Microsoft Remote Desktop", "/Applications/Microsoft Remote Desktop.app/Contents/MacOS/Microsoft Remote Desktop", "microsoft", false));
        out.push(candidate("Royal TSX", "/Applications/Royal TSX.app/Contents/MacOS/Royal TSX", "third_party", false));
        out.push(candidate("Jump Desktop", "/Applications/Jump Desktop.app/Contents/MacOS/Jump Desktop", "third_party", false));
        out.push(candidate("Screens for Organizations", "/Applications/Screens for Organizations.app/Contents/MacOS/Screens for Organizations", "third_party", false));
        out.push(candidate("Remote Desktop Scanner", "/Applications/Remote Desktop Scanner.app/Contents/MacOS/Remote Desktop Scanner", "third_party", false));
    } else if str_eq(platform, "linux") {
        out.push(candidate("xfreerdp", "xfreerdp", "freerdp", true));
        out.push(candidate("rdesktop", "rdesktop", "rdesktop", true));
        out.push(candidate("remmina", "remmina", "remmina", true));
        out.push(candidate("vinagre", "vinagre", "vinagre", true));
        out.push(candidate("tsclient", "tsclient", "tsclient", true));
    }
    assert(out@.map_values(|c: RdpCandidate| candidate_entry(c)) =~= candidate_table(platform@));
    out
}

/// The description of a candidate found on `platform`.
pub fn client_info_of(c: &RdpCandidate, platform: &str) -> (r: RdpClientInfo)
    ensures
        r.name == c.name,
        r.executable_path == c.location,
        r.client_type == c.client_type,
        r.platform@ == platform@,
        r.version.is_none(),
        r.supports_fullscreen && r.supports_resolution && r.supports_credentials,
{
    RdpClientInfo {
        name: c.name.clone(),
        executable_path: c.location.clone(),
        client_type: c.client_type.clone(),
        platform: owned(platform),
        version: None,
        supports_fullscreen: true,
        supports_resolution: true,
        supports_credentials: true,
    }
}

/// The index of the first client that `pred` accepts.
pub open spec fn first_where(s: Seq<RdpClientInfo>, pred: spec_fn(RdpClientInfo) -> bool) -> Option<int>
    decreases s.len(),
{
    if s.len() == 0 {
        None
    } else if pred(s[0]) {
        Some(0)
    } else {
        match first_where(s.drop_first(), pred) {
            Some(k) => Some(k + 1),
            None => None,
        }
    }
}

proof fn lemma_first_where(s: Seq<RdpClientInfo>, pred: spec_fn(RdpClientInfo) -> bool, i: int)
    requires
        0 <= i <= s.len(),
        forall|j: int| 0 <= j < i ==> !pred(#[trigger] s[j]),
    ensures
        i < s.len() && pred(s[i]) ==> first_where(s, pred) == Some(i),
        i == s.len() ==> first_where(s, pred).is_none(),
    decreases i,
{
    if i > 0 {
        assert forall|j: int| 0 <= j < i - 1 implies !pred(#[trigger] s.drop_first()[j]) by {
            assert(s.drop_first()[j] == s[j + 1]);
        }
        lemma_first_where(s.drop_first(), pred, i - 1);
    }
}

/// What makes a client the preferred one on `platform`.
pub open spec fn preferred_on(platform: Seq<char>) -> spec_fn(RdpClientInfo) -> bool {
    if platform == "windows"@ {
        |c: RdpClientInfo| c.client_type@ == "builtin"@
    } else if platform == "macos"@ {
        |c: RdpClientInfo| has_substring(c.name@, "Microsoft Remote Desktop"@)
    } else if platform == "linux"@ {
        |c: RdpClientInfo| c.name@ == "xfreerdp"@
    } else {
        |c: RdpClientInfo| false
    }
}

/// The index of the default client: the platform's preferred one, else the
/// first; none when there is no client.
pub open spec fn default_index(platform: Seq<char>, clients: Seq<RdpClientInfo>) -> Option<int> {
    if clients.len() == 0 {
        None
    } else {
        match first_where(clients, preferred_on(platform)) {
            Some(i) => Some(i),
            None => Some(0),
        }
    }
}

/// The name of the default client among `clients` on `platform`: the
/// built-in client on Windows, Microsoft Remote Desktop on macOS, xfreerdp
/// on Linux, else the first one found.
pub fn default_client(platform: &str, clients: &Vec<RdpClientInfo>) -> (r: Option<String>)
    ensures
        match default_index(platform@, clients@) {
            Some(i) => r.is_some() && r.unwrap() == clients@[i].name,
            None => r.is_none(),
        },
{
    if clients.len() == 0 {
        return None;
    }
    let ghost pred = preferred_on(platform@);
    let is_windows = str_eq(platform, "windows");
    let is_macos = str_eq(platform, "macos");
    let is_linux = str_eq(platform, "linux");
    let mut i: usize = 0;
    while i < clients.len()
        invariant
            i <= clients@.len(),
            pred == preferred_on(platform@),
            is_windows == (platform@ == "windows"@),
            is_macos == (platform@ == "macos"@),
            is_linux == (platform@ == "linux"@),
            forall|j: int| 0 <= j < i ==> !pred(#[trigger] clients@[j]),
        decreases clients@.len() - i,
    {
        let c = &clients[i];
        let hit = if is_windows {
            str_eq(c.client_type.as_str(), "builtin")
        } else if is_macos {
            contains_text(c.name.as_str(), "Microsoft Remote Desktop")
        } else if is_linux {
            str_eq(c.name.as_str(), "xfreerdp")
        } else {
            false
        };
        assert(hit == pred(clients@[i as int]));
        if hit {
            proof {
                lemma_first_where(clients@, pred, i as int);
            }
            return Some(c.name.clone());
        }
        i = i + 1;
    }
    proof {
        lemma_first_where(clients@, pred, i as int);
    }
    Some(clients[0].name.clone())
}

/// Accepts the clients called `n`.
pub open spec fn named(n: Seq<char>) -> spec_fn(RdpClientInfo) -> bool {
    |c: RdpClientInfo| c.name@ == n
}

/// Why no client can be launched.
#[derive(Clone, Debug)]
pub enum RdpError {
    /// No remote-desktop client was found on this machine.
    NoClients,
    /// The requested client was not found.
    UnknownClient(String),
}

fn index_of_name(clients: &Vec<RdpClientInfo>, name: &str) -> (r: Option<usize>)
    ensures
        match r {
            Some(i) => first_where(clients@, named(name@)) == Some(i as int) && i < clients@.len(),
            None => first_where(clients@, named(name@)).is_none(),
        },
{
    let ghost pred = named(name@);
    let mut i: usize = 0;
    while i < clients.len()
        invariant
            i <= clients@.len(),
            pred == (named(name@)),
            forall|j: int| 0 <= j < i ==> !pred(#[trigger] clients@[j]),
        decreases clients@.len() - i,
    {
        if str_eq(clients[i].name.as_str(), name) {
            proof {
                lemma_first_where(clients@, pred, i as int);
            }
            return Some(i);
        }
        i = i + 1;
    }
    proof {
        lemma_first_where(clients@, pred, i as int);
    }
    None
}

/// The client to launch: the requested one, or else the default one (or the
/// first found when the default is not among them).
pub fn choose_client(detected: &DetectedRdpClients, requested: Option<&str>) -> (r: Result<RdpClientInfo, RdpError>)
    ensures
        detected.clients@.len() == 0 ==> r is Err && r->Err_0 is NoClients,
        detected.clients@.len() > 0 ==> match requested {
            Some(n) => match first_where(detected.clients@, named(n@)) {
                Some(i) => r == Ok::<RdpClientInfo, RdpError>(detected.clients@[i]),
                None => r is Err && r->Err_0 is UnknownClient,
            },
            None => {
                let wanted = match detected.default_client {
                    Some(d) => d@,
                    None => detected.clients@[0].name@,
                };
                match first_where(detected.clients@, named(wanted)) {
                    Some(i) => r == Ok::<RdpClientInfo, RdpError>(detected.clients@[i]),
                    None => r == Ok::<RdpClientInfo, RdpError>(detected.clients@[0]),
                }
            },
        },
{
    let clients = &detected.clients;
    if clients.len() == 0 {
        return Err(RdpError::NoClients);
    }
    match requested {
        Some(n) => match index_of_name(clients, n) {
            Some(i) => Ok(clients[i].clone()),
            None => Err(RdpError::UnknownClient(owned(n))),
        },
        None => {
            let wanted = match &detected.default_client {
                Some(d) => d.clone(),
                None => clients[0].name.clone(),
            };
            match index_of_name(clients, wanted.as_str()) {
                Some(i) => Ok(clients[i].clone()),
                None => Ok(clients[0].clone()),
            }
        },
    }
}

} // verus!
