//! The commands that start the managed processes.
use vstd::prelude::*;
use crate::config::renderer::find_server;
use crate::config::store::{
    default_config_spec, env_view, migrate_spec, AppConfig, LegacyAppConfigView, ServerConfig,
};
use crate::error::{AppError, AppErrorView};
use crate::process::manager::ProcessTarget;
use crate::text::{
    chars_of, decimal, decimal_spec, find, find_spec, lemma_decimal_reads_back, lemma_find_from_occurs,
    lemma_rfind_from_last, occurs_at, parse_u32, parse_u32_spec, rfind_before, rfind_spec, string_of,
    strings_view,
};

verus! {

/// A program to run, its arguments, its working directory and extra environment.
#[derive(Debug, Clone)]
pub struct LaunchSpec {
    pub program: String,
    pub args: Vec<String>,
    pub cwd: String,
    pub env: Vec<(String, String)>,
}

/// A launch as plain values.
pub struct LaunchView {
    pub program: Seq<char>,
    pub args: Seq<Seq<char>>,
    pub cwd: Seq<char>,
    pub env: Seq<(Seq<char>, Seq<char>)>,
}

impl View for LaunchSpec {
    type V = LaunchView;

    open spec fn view(&self) -> LaunchView {
        LaunchView {
            program: self.program@,
            args: strings_view(self.args@),
            cwd: self.cwd@,
            env: env_view(self.env@),
        }
    }
}

/// `opencode serve --port <port>`, in `cwd` (the current directory when it is empty).
pub open spec fn server_launch_spec(port: u16, cwd: Seq<char>, env: Seq<(Seq<char>, Seq<char>)>) -> LaunchView {
    LaunchView {
        program: "opencode"@,
        args: seq!["serve"@, "--port"@, decimal_spec(port as nat)],
        cwd: if cwd.len() == 0 {
            "."@
        } else {
            cwd
        },
        env,
    }
}

/// `bun run src/index.ts` when bun is at hand, else `npx tsx src/index.ts`, in the bridge's directory.
pub open spec fn bridge_launch_spec(dir: Seq<char>, use_bun: bool) -> LaunchView {
    LaunchView {
        program: if use_bun {
            "bun"@
        } else {
            "npx"@
        },
        args: if use_bun {
            seq!["run"@, "src/index.ts"@]
        } else {
            seq!["tsx"@, "src/index.ts"@]
        },
        cwd: dir,
        env: Seq::empty(),
    }
}

fn copy_env(env: &Vec<(String, String)>) -> (r: Vec<(String, String)>)
    ensures
        env_view(r@) == env_view(env@),
{
    let mut r: Vec<(String, String)> = Vec::new();
    let mut i: usize = 0;
    while i < env.len()
        invariant
            i <= env.len(),
            env_view(r@) == env_view(env@).take(i as int),
        decreases env.len() - i,
    {
        let p = (env[i].0.clone(), env[i].1.clone());
        let ghost before = r@;
        r.push(p);
        assert(env_view(r@) =~= env_view(before).push((env@[i as int].0@, env@[i as int].1@)));
        assert(env_view(env@).take(i + 1) =~= env_view(env@).take(i as int).push(
            (env@[i as int].0@, env@[i as int].1@),
        ));
        i += 1;
    }
    assert(env_view(env@).take(env.len() as int) =~= env_view(env@));
    r
}

/// The command that starts an opencode server on `port` in `cwd`.
pub fn server_launch(port: u16, cwd: &str, env: &Vec<(String, String)>) -> (r: LaunchSpec)
    ensures
        r@ == server_launch_spec(port, cwd@, env_view(env@)),
{
    let mut args: Vec<String> = Vec::new();
    args.push(String::from_str("serve"));
    args.push(String::from_str("--port"));
    args.push(string_of(&decimal(port as u64)));
    let dir = if cwd.is_empty() {
        String::from_str(".")
    } else {
        String::from_str(cwd)
    };
    let r = LaunchSpec {
        program: String::from_str("opencode"),
        args,
        cwd: dir,
        env: copy_env(env),
    };
    assert(r@.args =~= seq!["serve"@, "--port"@, decimal_spec(port as nat)]);
    r
}

/// The command that starts the bridge installed in `dir`.
pub fn bridge_launch(dir: &str, use_bun: bool) -> (r: LaunchSpec)
    ensures
        r@ == bridge_launch_spec(dir@, use_bun),
{
    let mut args: Vec<String> = Vec::new();
    let program = if use_bun {
        args.push(String::from_str("run"));
        "bun"
    } else {
        args.push(String::from_str("tsx"));
        "npx"
    };
    args.push(String::from_str("src/index.ts"));
    let r = LaunchSpec {
        program: String::from_str(program),
        args,
        cwd: String::from_str(dir),
        env: Vec::new(),
    };
    assert(r@.args =~= bridge_launch_spec(dir@, use_bun).args);
    assert(r@.env =~= Seq::<(Seq<char>, Seq<char>)>::empty());
    r
}

/// The port written in a server URL: the digits after its last `:`, up to
/// the next `/` or the end.
pub open spec fn url_port_spec(url: Seq<char>) -> Option<u16> {
    match rfind_spec(url, ":"@) {
        Some(i) => {
            let rest = url.skip(i + 1);
            let digits = match find_spec(rest, "/"@) {
                Some(j) => rest.take(j),
                None => rest,
            };
            match parse_u32_spec(digits) {
                Some(p) => if p <= 65535 {
                    Some(p as u16)
                } else {
                    None
                },
                None => None,
            }
        },
        None => None,
    }
}

/// The port a server URL names.
pub fn url_port(url: &str) -> (r: Option<u16>)
    ensures
        r == url_port_spec(url@),
{
    let v = chars_of(url);
    let colon = chars_of(":");
    let slash = chars_of("/");
    proof {
        reveal_strlit(":");
    }
    assert(colon@.len() == 1);
    assert(v@.take(v@.len() as int) =~= v@);
    match rfind_before(&v, &colon, v.len()) {
        Some(i) => {
            let ghost rest = v@.skip(i + 1);
            let tail = crate::text::slice_chars(&v, i + 1, v.len());
            assert(tail@ =~= rest);
            proof {
                crate::text::lemma_find_from_occurs(tail@, slash@, 0);
            }
            let end = match find(&tail, &slash) {
                Some(j) => j,
                None => tail.len(),
            };
            assert(tail@.subrange(0, end as int) =~= match find_spec(rest, "/"@) {
                Some(j) => rest.take(j),
                None => rest,
            });
            match parse_u32(&tail, 0, end) {
                Some(p) => if p <= 65535 {
                    Some(p as u16)
                } else {
                    None
                },
                None => None,
            }
        },
        None => None,
    }
}

/// The error for a server id that no configured server has.
pub open spec fn server_not_found_spec(id: Seq<char>) -> AppErrorView {
    AppErrorView::Config("server not found: "@ + id)
}

/// The command that starts the configured server `id`: an error when no
/// server has that id or its URL names no port.
pub open spec fn server_launch_for_spec(servers: Seq<crate::config::store::ServerConfigView>, id: Seq<char>) -> Result<LaunchView, AppErrorView> {
    match find_server(servers, id) {
        None => Err(server_not_found_spec(id)),
        Some(s) => match url_port_spec(s.url) {
            None => Err(AppErrorView::Config("server url names no port: "@ + s.url)),
            Some(port) => Ok(server_launch_spec(port, s.cwd, s.extra_env)),
        },
    }
}

/// The view of a launch result.
pub open spec fn launch_result_view(r: Result<LaunchSpec, AppError>) -> Result<LaunchView, AppErrorView> {
    match r {
        Ok(l) => Ok(l@),
        Err(e) => Err(e@),
    }
}

fn find_server_by_id<'a>(servers: &'a Vec<ServerConfig>, id: &str) -> (r: Option<&'a ServerConfig>)
    ensures
        match r {
            Some(s) => find_server(servers@.map_values(|s: ServerConfig| s@), id@) == Some(s@),
            None => find_server(servers@.map_values(|s: ServerConfig| s@), id@) is None,
        },
{
    let ghost all = servers@.map_values(|s: ServerConfig| s@);
    let mut i: usize = 0;
    assert(all.skip(0) =~= all);
    while i < servers.len()
        invariant
            i <= servers.len(),
            all == servers@.map_values(|s: ServerConfig| s@),
            find_server(all.skip(i as int), id@) == find_server(all, id@),
        decreases servers.len() - i,
    {
        let ghost rest = all.skip(i as int);
        assert(rest[0] == servers@[i as int]@);
        assert(rest.drop_first() =~= all.skip(i + 1));
        if crate::text::str_eq(servers[i].id.as_str(), id) {
            return Some(&servers[i]);
        }
        i += 1;
    }
    assert(all.skip(i as int) =~= Seq::<crate::config::store::ServerConfigView>::empty());
    None
}

/// The command that starts the configured server `id`.
pub fn server_launch_for(config: &AppConfig, id: &str) -> (r: Result<LaunchSpec, AppError>)
    ensures
        launch_result_view(r) == server_launch_for_spec(config@.servers, id@),
{
    match find_server_by_id(&config.servers, id) {
        None => {
            let mut m = String::from_str("server not found: ");
            m.append(id);
            Err(AppError::Config(m))
        },
        Some(s) => match url_port(s.url.as_str()) {
            None => {
                let mut m = String::from_str("server url names no port: ");
                m.append(s.url.as_str());
                Err(AppError::Config(m))
            },
            Some(port) => Ok(server_launch(port, s.cwd.as_str(), &s.extra_env)),
        },
    }
}

/// The name a process's output is logged under.
pub open spec fn source_spec(target: ProcessTarget) -> Seq<char> {
    match target {
        ProcessTarget::Server => "server"@,
        ProcessTarget::Bridge => "bridge"@,
    }
}

/// The name a process's output is logged under.
pub fn source_str(target: ProcessTarget) -> (r: &'static str)
    ensures
        r@ == source_spec(target),
{
    match target {
        ProcessTarget::Server => "server",
        ProcessTarget::Bridge => "bridge",
    }
}

/// Law: a server at `http://127.0.0.1:<port>` is started on that port.
pub proof fn law_local_url_names_its_port(port: u16)
    ensures
        url_port_spec("http://127.0.0.1:"@ + decimal_spec(port as nat)) == Some(port),
{
    reveal_strlit("http://127.0.0.1:");
    reveal_strlit(":");
    reveal_strlit("/");
    let pre = "http://127.0.0.1:"@;
    let d = decimal_spec(port as nat);
    let u = pre + d;
    lemma_decimal_reads_back(port as nat);
    assert(pre.len() == 17);
    assert(occurs_at(u, ":"@, 16)) by {
        assert(u.subrange(16, 17) =~= ":"@);
    }
    assert forall|j: int| 16 < j <= u.len() - 1 implies !occurs_at(u, ":"@, j) by {
        assert(u[j] == d[j - 17]);
        assert(48 <= (d[j - 17] as u32) <= 57);
        if occurs_at(u, ":"@, j) {
            assert(u.subrange(j, j + 1)[0] == u[j]);
        }
    }
    lemma_rfind_from_last(u, ":"@, u.len() - 1, 16);
    assert(rfind_spec(u, ":"@) == Some(16int));
    let rest = u.skip(17);
    assert(rest =~= d);
    lemma_find_from_occurs(d, "/"@, 0);
    if let Some(j) = find_spec(d, "/"@) {
        assert(d.subrange(j, j + 1)[0] == d[j]);
        assert(48 <= (d[j] as u32) <= 57);
        assert(false);
    }
    assert(48 <= (d[0] as u32) <= 57);
    assert(parse_u32_spec(d) == Some(port as u32));
}

/// Law: the default configuration's server starts on port 4097 in the home
/// directory, and the server of a migrated configuration on the old port,
/// in the old directory, with the old environment.
pub proof fn law_configured_servers_start_on_their_ports(home: Seq<char>, l: LegacyAppConfigView)
    ensures
        server_launch_for_spec(default_config_spec(home).servers, "default"@) == Ok::<
            LaunchView,
            AppErrorView,
        >(server_launch_spec(4097, home, Seq::empty())),
        server_launch_for_spec(migrate_spec(l).servers, "default"@) == Ok::<LaunchView, AppErrorView>(
            server_launch_spec(l.server.port, l.server.cwd, l.server.extra_env),
        ),
{
    law_local_url_names_its_port(l.server.port);
    law_local_url_names_its_port(4097);
    reveal_strlit("http://127.0.0.1:4097");
    reveal_strlit("http://127.0.0.1:");
    reveal_with_fuel(decimal_spec, 5);
    assert("http://127.0.0.1:4097"@ =~= "http://127.0.0.1:"@ + decimal_spec(4097));
}

} // verus!
