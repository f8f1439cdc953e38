//! `nude system` — singleton daemon introspection: `info` / `version`.
//!
//! A different shape from the list+inspect resources: no name positional, no
//! filters, no labels. Each command fetches one singleton from the daemon and
//! projects it by output format:
//! - `info`    → compact is the `docker info` headline, wide adds drivers /
//!   flags / security options / warnings, full is the raw payload.
//! - `version` → compact is the server-version summary, wide adds the
//!   component breakdown, full is raw.

use vstd::prelude::*;

use crate::helpers::{
    as_deref, enum_opt, opt_bool, opt_bool_spec, opt_filesize, opt_filesize_spec, opt_int,
    opt_int_spec, opt_rfc3339, opt_rfc3339_spec, str_list, str_list_spec, str_opt, str_opt_spec,
};
use crate::completers::{output_completion, output_completion_spec, ArgKind, CompletionSource};
use crate::output::OutputFormat;
use crate::scaffold::{
    list_output_help, output_flag, singleton_signature, docker_command, SignatureSpec,
};
use crate::value::{
    put, put_field, Cell, CellV, Field, Rendering, RenderingV, Row, RowV, Scalar, ScalarV,
};

verus! {

/// `nude system info`.
pub struct SystemInfoCommand;

/// `nude system version`.
pub struct SystemVersionCommand;

// ---------------------------------------------------------------------------
// info
// ---------------------------------------------------------------------------

/// What the daemon's info endpoint reports (the fields shown here).
pub struct SystemInfo {
    pub name: Option<String>,
    pub server_version: Option<String>,
    pub containers: Option<i64>,
    pub containers_running: Option<i64>,
    pub containers_paused: Option<i64>,
    pub containers_stopped: Option<i64>,
    pub images: Option<i64>,
    pub driver: Option<String>,
    pub operating_system: Option<String>,
    pub os_type: Option<String>,
    pub architecture: Option<String>,
    pub kernel_version: Option<String>,
    pub ncpu: Option<i64>,
    pub mem_total: Option<i64>,
    pub docker_root_dir: Option<String>,
    pub logging_driver: Option<String>,
    /// The cgroup driver enum, by the name it serializes to.
    pub cgroup_driver: Option<String>,
    /// The cgroup version enum, by the name it serializes to.
    pub cgroup_version: Option<String>,
    pub default_runtime: Option<String>,
    pub live_restore_enabled: Option<bool>,
    pub debug: Option<bool>,
    pub experimental_build: Option<bool>,
    pub index_server_address: Option<String>,
    pub security_options: Option<Vec<String>>,
    pub warnings: Option<Vec<String>>,
    pub labels: Option<Vec<String>>,
}

pub open spec fn info_record_spec(i: SystemInfo, wide: bool) -> RowV {
    seq![
        ("name"@, CellV::One(str_opt_spec(i.name.deep_view()))),
        ("server_version"@, CellV::One(str_opt_spec(i.server_version.deep_view()))),
        ("containers"@, CellV::One(opt_int_spec(i.containers))),
        ("containers_running"@, CellV::One(opt_int_spec(i.containers_running))),
        ("containers_paused"@, CellV::One(opt_int_spec(i.containers_paused))),
        ("containers_stopped"@, CellV::One(opt_int_spec(i.containers_stopped))),
        ("images"@, CellV::One(opt_int_spec(i.images))),
        ("driver"@, CellV::One(str_opt_spec(i.driver.deep_view()))),
        ("operating_system"@, CellV::One(str_opt_spec(i.operating_system.deep_view()))),
        ("os_type"@, CellV::One(str_opt_spec(i.os_type.deep_view()))),
        ("architecture"@, CellV::One(str_opt_spec(i.architecture.deep_view()))),
        ("kernel_version"@, CellV::One(str_opt_spec(i.kernel_version.deep_view()))),
        ("ncpu"@, CellV::One(opt_int_spec(i.ncpu))),
        ("mem_total"@, CellV::One(opt_filesize_spec(i.mem_total))),
    ] + if wide {
        seq![
            ("docker_root_dir"@, CellV::One(str_opt_spec(i.docker_root_dir.deep_view()))),
            ("logging_driver"@, CellV::One(str_opt_spec(i.logging_driver.deep_view()))),
            ("cgroup_driver"@, CellV::One(str_opt_spec(i.cgroup_driver.deep_view()))),
            ("cgroup_version"@, CellV::One(str_opt_spec(i.cgroup_version.deep_view()))),
            ("default_runtime"@, CellV::One(str_opt_spec(i.default_runtime.deep_view()))),
            ("live_restore"@, CellV::One(opt_bool_spec(i.live_restore_enabled))),
            ("debug"@, CellV::One(opt_bool_spec(i.debug))),
            ("experimental"@, CellV::One(opt_bool_spec(i.experimental_build))),
            ("index_server"@, CellV::One(str_opt_spec(i.index_server_address.deep_view()))),
            ("security_options"@, str_list_spec(i.security_options.deep_view())),
            ("warnings"@, str_list_spec(i.warnings.deep_view())),
            ("labels"@, str_list_spec(i.labels.deep_view())),
        ]
    } else {
        Seq::empty()
    }
}

/// The `docker info` projection. `wide` appends drivers, host flags, security
/// options and warnings; deeply nested sub-structs are left to `full`.
pub fn info_record(i: &SystemInfo, wide: bool) -> (row: Row)
    ensures
        row.deep_view() == info_record_spec(*i, wide),
{
    let mut row: Row = Vec::new();
    put(&mut row, "name", Cell::One(str_opt(as_deref(&i.name))));
    put(&mut row, "server_version", Cell::One(str_opt(as_deref(&i.server_version))));
    put(&mut row, "containers", Cell::One(opt_int(i.containers)));
    put(&mut row, "containers_running", Cell::One(opt_int(i.containers_running)));
    put(&mut row, "containers_paused", Cell::One(opt_int(i.containers_paused)));
    put(&mut row, "containers_stopped", Cell::One(opt_int(i.containers_stopped)));
    put(&mut row, "images", Cell::One(opt_int(i.images)));
    put(&mut row, "driver", Cell::One(str_opt(as_deref(&i.driver))));
    put(&mut row, "operating_system", Cell::One(str_opt(as_deref(&i.operating_system))));
    put(&mut row, "os_type", Cell::One(str_opt(as_deref(&i.os_type))));
    put(&mut row, "architecture", Cell::One(str_opt(as_deref(&i.architecture))));
    put(&mut row, "kernel_version", Cell::One(str_opt(as_deref(&i.kernel_version))));
    put(&mut row, "ncpu", Cell::One(opt_int(i.ncpu)));
    put(&mut row, "mem_total", Cell::One(opt_filesize(i.mem_total)));
    if wide {
        put(&mut row, "docker_root_dir", Cell::One(str_opt(as_deref(&i.docker_root_dir))));
        put(&mut row, "logging_driver", Cell::One(str_opt(as_deref(&i.logging_driver))));
        put(&mut row, "cgroup_driver", Cell::One(enum_opt(as_deref(&i.cgroup_driver))));
        put(&mut row, "cgroup_version", Cell::One(enum_opt(as_deref(&i.cgroup_version))));
        put(&mut row, "default_runtime", Cell::One(str_opt(as_deref(&i.default_runtime))));
        put(&mut row, "live_restore", Cell::One(opt_bool(i.live_restore_enabled)));
        put(&mut row, "debug", Cell::One(opt_bool(i.debug)));
        put(&mut row, "experimental", Cell::One(opt_bool(i.experimental_build)));
        put(&mut row, "index_server", Cell::One(str_opt(as_deref(&i.index_server_address))));
        put(&mut row, "security_options", str_list(i.security_options.as_ref()));
        put(&mut row, "warnings", str_list(i.warnings.as_ref()));
        put(&mut row, "labels", str_list(i.labels.as_ref()));
    }
    assert(row.deep_view() =~= info_record_spec(*i, wide));
    row
}

// ---------------------------------------------------------------------------
// version
// ---------------------------------------------------------------------------

/// What the daemon's version endpoint reports.
pub struct SystemVersion {
    pub version: Option<String>,
    pub api_version: Option<String>,
    pub min_api_version: Option<String>,
    pub os: Option<String>,
    pub arch: Option<String>,
    pub kernel_version: Option<String>,
    pub go_version: Option<String>,
    pub git_commit: Option<String>,
    pub build_time: Option<String>,
    pub experimental: Option<bool>,
    /// The components, as `(name, version)`.
    pub components: Option<Vec<(String, String)>>,
}

pub open spec fn component_row(c: (Seq<char>, Seq<char>)) -> Seq<(Seq<char>, ScalarV)> {
    seq![("name"@, ScalarV::Str(c.0)), ("version"@, ScalarV::Str(c.1))]
}

pub open spec fn components_spec(cs: Option<Seq<(Seq<char>, Seq<char>)>>) -> CellV {
    match cs {
        Some(cs) => CellV::Table(cs.map_values(|c: (Seq<char>, Seq<char>)| component_row(c))),
        None => CellV::Table(Seq::empty()),
    }
}

/// The version components as a table of `{name, version}` records.
pub fn components_value(components: &Option<Vec<(String, String)>>) -> (c: Cell)
    ensures
        c.deep_view() == components_spec(components.deep_view()),
{
    let mut rows: Vec<Vec<Field>> = Vec::new();
    match components {
        Some(cs) => {
            let mut i: usize = 0;
            while i < cs.len()
                invariant
                    i <= cs@.len(),
                    rows.deep_view() =~= cs.deep_view().take(i as int).map_values(
                        |c: (Seq<char>, Seq<char>)| component_row(c),
                    ),
                decreases cs@.len() - i,
            {
                let mut rec: Vec<Field> = Vec::new();
                put_field(&mut rec, "name", Scalar::Str(cs[i].0.clone()));
                put_field(&mut rec, "version", Scalar::Str(cs[i].1.clone()));
                let ghost e = cs[i as int].deep_view();
                assert(rec.deep_view() =~= component_row(e));
                let ghost before = rows.deep_view();
                rows.push(rec);
                assert(rows.deep_view() =~= before.push(component_row(e)));
                assert(cs.deep_view().take(i + 1) =~= cs.deep_view().take(i as int).push(e));
                assert(cs.deep_view().take(i + 1).map_values(
                    |c: (Seq<char>, Seq<char>)| component_row(c),
                ) =~= cs.deep_view().take(i as int).map_values(
                    |c: (Seq<char>, Seq<char>)| component_row(c),
                ).push(component_row(e)));
                i = i + 1;
            }
            assert(cs.deep_view().take(i as int) =~= cs.deep_view());
        },
        None => {
            assert(rows.deep_view() =~= Seq::<Seq<(Seq<char>, ScalarV)>>::empty());
        },
    }
    Cell::Table(rows)
}

pub open spec fn version_record_spec(v: SystemVersion, wide: bool) -> RowV {
    seq![
        ("version"@, CellV::One(str_opt_spec(v.version.deep_view()))),
        ("api_version"@, CellV::One(str_opt_spec(v.api_version.deep_view()))),
    ] + (if wide {
        seq![("min_api_version"@, CellV::One(str_opt_spec(v.min_api_version.deep_view())))]
    } else {
        Seq::empty()
    }) + seq![
        ("os"@, CellV::One(str_opt_spec(v.os.deep_view()))),
        ("arch"@, CellV::One(str_opt_spec(v.arch.deep_view()))),
        ("kernel_version"@, CellV::One(str_opt_spec(v.kernel_version.deep_view()))),
        ("go_version"@, CellV::One(str_opt_spec(v.go_version.deep_view()))),
        ("git_commit"@, CellV::One(str_opt_spec(v.git_commit.deep_view()))),
        ("build_time"@, CellV::One(opt_rfc3339_spec(v.build_time.deep_view()))),
        ("experimental"@, CellV::One(opt_bool_spec(v.experimental))),
    ] + if wide {
        seq![("components"@, components_spec(v.components.deep_view()))]
    } else {
        Seq::empty()
    }
}

/// The `docker version` (server) projection. `wide` adds `min_api_version`
/// and the component breakdown (Engine, containerd, runc, docker-init).
pub fn version_record(v: &SystemVersion, wide: bool) -> (row: Row)
    ensures
        row.deep_view() == version_record_spec(*v, wide),
{
    let mut row: Row = Vec::new();
    put(&mut row, "version", Cell::One(str_opt(as_deref(&v.version))));
    put(&mut row, "api_version", Cell::One(str_opt(as_deref(&v.api_version))));
    if wide {
        put(&mut row, "min_api_version", Cell::One(str_opt(as_deref(&v.min_api_version))));
    }
    put(&mut row, "os", Cell::One(str_opt(as_deref(&v.os))));
    put(&mut row, "arch", Cell::One(str_opt(as_deref(&v.arch))));
    put(&mut row, "kernel_version", Cell::One(str_opt(as_deref(&v.kernel_version))));
    put(&mut row, "go_version", Cell::One(str_opt(as_deref(&v.go_version))));
    put(&mut row, "git_commit", Cell::One(str_opt(as_deref(&v.git_commit))));
    put(&mut row, "build_time", Cell::One(opt_rfc3339(as_deref(&v.build_time))));
    put(&mut row, "experimental", Cell::One(opt_bool(v.experimental)));
    if wide {
        put(&mut row, "components", components_value(&v.components));
    }
    assert(row.deep_view() =~= version_record_spec(*v, wide));
    row
}

// ---------------------------------------------------------------------------
// The commands
// ---------------------------------------------------------------------------

impl SystemInfoCommand {
    pub fn name(&self) -> (r: &'static str)
        ensures
            r@ == "nude system info"@,
    {
        "nude system info"
    }

    pub fn description(&self) -> (r: &'static str)
        ensures
            r@ == "Daemon-wide info: versions, counts, driver, host resources"@,
    {
        "Daemon-wide info: versions, counts, driver, host resources"
    }

    /// Only `--output`.
    pub fn signature(&self) -> (sig: SignatureSpec)
        ensures
            sig.name@ == "nude system info"@,
            docker_command(sig),
            sig.required is None,
            sig.flags.deep_view() == seq![output_flag(list_output_help())],
    {
        singleton_signature("nude system info")
    }

    /// Only `--output` is completable.
    pub fn completion(&self, arg: &ArgKind) -> (r: CompletionSource)
        ensures
            r == output_completion_spec(arg.deep_view()),
    {
        output_completion(arg)
    }
}

pub open spec fn info_spec(i: SystemInfo, fmt: OutputFormat) -> RenderingV {
    match fmt {
        OutputFormat::Full => RenderingV::Raw,
        OutputFormat::Compact => RenderingV::Rows(seq![info_record_spec(i, false)]),
        OutputFormat::Wide => RenderingV::Rows(seq![info_record_spec(i, true)]),
    }
}

/// What `info` shows: the raw payload for `full`, its one record otherwise.
pub fn info_rendering(i: &SystemInfo, fmt: OutputFormat) -> (r: Rendering)
    ensures
        r.deep_view() == info_spec(*i, fmt),
{
    match fmt {
        OutputFormat::Full => Rendering::Raw,
        OutputFormat::Compact => {
            let rows = vec![info_record(i, false)];
            assert(rows.deep_view() =~= seq![info_record_spec(*i, false)]);
            Rendering::Rows(rows)
        },
        OutputFormat::Wide => {
            let rows = vec![info_record(i, true)];
            assert(rows.deep_view() =~= seq![info_record_spec(*i, true)]);
            Rendering::Rows(rows)
        },
    }
}

impl SystemVersionCommand {
    pub fn name(&self) -> (r: &'static str)
        ensures
            r@ == "nude system version"@,
    {
        "nude system version"
    }

    pub fn description(&self) -> (r: &'static str)
        ensures
            r@ == "Daemon version: engine, API, Go, OS/arch, and components"@,
    {
        "Daemon version: engine, API, Go, OS/arch, and components"
    }

    /// Only `--output`.
    pub fn signature(&self) -> (sig: SignatureSpec)
        ensures
            sig.name@ == "nude system version"@,
            docker_command(sig),
            sig.required is None,
            sig.flags.deep_view() == seq![output_flag(list_output_help())],
    {
        singleton_signature("nude system version")
    }

    /// Only `--output` is completable.
    pub fn completion(&self, arg: &ArgKind) -> (r: CompletionSource)
        ensures
            r == output_completion_spec(arg.deep_view()),
    {
        output_completion(arg)
    }
}

pub open spec fn version_spec(v: SystemVersion, fmt: OutputFormat) -> RenderingV {
    match fmt {
        OutputFormat::Full => RenderingV::Raw,
        OutputFormat::Compact => RenderingV::Rows(seq![version_record_spec(v, false)]),
        OutputFormat::Wide => RenderingV::Rows(seq![version_record_spec(v, true)]),
    }
}

/// What `version` shows: the raw payload for `full`, its one record
/// otherwise.
pub fn version_rendering(v: &SystemVersion, fmt: OutputFormat) -> (r: Rendering)
    ensures
        r.deep_view() == version_spec(*v, fmt),
{
    match fmt {
        OutputFormat::Full => Rendering::Raw,
        OutputFormat::Compact => {
            let rows = vec![version_record(v, false)];
            assert(rows.deep_view() =~= seq![version_record_spec(*v, false)]);
            Rendering::Rows(rows)
        },
        OutputFormat::Wide => {
            let rows = vec![version_record(v, true)];
            assert(rows.deep_view() =~= seq![version_record_spec(*v, true)]);
            Rendering::Rows(rows)
        },
    }
}

} // verus!
