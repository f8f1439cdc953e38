//! `nude container ls` / `nude container inspect` — list containers, or
//! inspect one by name/ID.
//!
//! Data source per output format:
//! - compact : the list summary; health and exit code are read off Docker's
//!   human status line (`"Up 2 hours (healthy)"`, `"Exited (0) 3 days ago"`)
//! - wide    : the inspect payload, one row per container with list columns
//! - full    : the inspect payload, converted verbatim (outside this library)

use vstd::prelude::*;

use crate::decorators::{labels_column, Decorators};
use crate::helpers::{
    clean_name, clean_name_spec, enum_opt, opt_bool, opt_bool_spec, opt_epoch, opt_epoch_spec,
    opt_int, opt_int_spec, opt_rfc3339, opt_rfc3339_spec, short_id, str_list, str_list_spec,
    str_opt, str_opt_spec,
};
use crate::text::{
    contains, contains_sub, digit_prefix, drop_leading, first_index_in_range, first_index_of,
    has_prefix, leading_digits, owned, parse_i64, parse_i64_spec, split_once, strip_prefix,
    take_at_most, trim_start_char,
};
use crate::completers::{
    ref_and_output, ref_and_output_spec, is_output_flag, output_flag_name, ArgKind, ArgKindV,
    CompletionSource, Suggestion, SuggestionV,
};
use crate::output::OutputFormat;
use crate::scaffold::{
    inspect_flags_spec, inspect_signature, list_flags_of, list_signature, CommandSpec, FilterArg,
    docker_command, Shape, SignatureSpec,
};
use crate::text::str_eq;
use crate::value::{
    put, put_field, Cell, CellV, Field, ListPlan, ListPlanV, Rendering, RenderingV, Row, RowV,
    Scalar, ScalarV,
};

verus! {

/// `nude container ls`.
pub struct ContainerLsCommand;

/// `nude container inspect`.
pub struct ContainerInspectCommand;

// ---------------------------------------------------------------------------
// The status line
// ---------------------------------------------------------------------------

pub open spec fn status_health_spec(status: Option<Seq<char>>) -> Option<Seq<char>> {
    match status {
        None => None,
        Some(s) => if contains_sub(s, "(healthy)"@) {
            Some("healthy"@)
        } else if contains_sub(s, "(unhealthy)"@) {
            Some("unhealthy"@)
        } else if contains_sub(s, "(health: starting)"@) {
            Some("starting"@)
        } else {
            None
        },
    }
}

/// The health a container's status line reports: `healthy`, `unhealthy` or
/// `starting`, or `None` when it carries no health marker.
pub fn status_health(status: Option<&str>) -> (r: Option<&'static str>)
    ensures
        r.deep_view() == status_health_spec(status.deep_view()),
{
    match status {
        None => None,
        Some(s) => if contains(s, "(healthy)") {
            Some("healthy")
        } else if contains(s, "(unhealthy)") {
            Some("unhealthy")
        } else if contains(s, "(health: starting)") {
            Some("starting")
        } else {
            None
        },
    }
}

/// The status line after its `Exited (` or `Restarting (` lead-in.
pub open spec fn exit_rest(s: Seq<char>) -> Option<Seq<char>> {
    if has_prefix(s, "Exited ("@) {
        Some(s.subrange("Exited ("@.len() as int, s.len() as int))
    } else if has_prefix(s, "Restarting ("@) {
        Some(s.subrange("Restarting ("@.len() as int, s.len() as int))
    } else {
        None
    }
}

pub open spec fn status_exit_code_spec(status: Option<Seq<char>>) -> Option<i64> {
    match status {
        None => None,
        Some(s) => match exit_rest(s) {
            Some(rest) => parse_i64_spec(leading_digits(rest)),
            None => None,
        },
    }
}

/// The exit code a stopped or restarting container's status line reports:
/// the digits in `Exited (N)` / `Restarting (N)`, or `None`.
pub fn status_exit_code(status: Option<&str>) -> (r: Option<i64>)
    ensures
        r == status_exit_code_spec(status.deep_view()),
{
    let s = match status {
        Some(s) => s,
        None => return None,
    };
    let rest = match strip_prefix(s, "Exited (") {
        Some(rest) => rest,
        None => match strip_prefix(s, "Restarting (") {
            Some(rest) => rest,
            None => return None,
        },
    };
    parse_i64(digit_prefix(rest))
}

// ---------------------------------------------------------------------------
// Compact (from a list summary)
// ---------------------------------------------------------------------------

/// What the container list endpoint reports of one container.
pub struct ContainerSummary {
    pub id: Option<String>,
    pub names: Option<Vec<String>>,
    pub image: Option<String>,
    /// The state enum, by the name it serializes to (`running`, `exited`, …).
    pub state: Option<String>,
    /// Docker's human status line.
    pub status: Option<String>,
    /// Creation time, in Unix epoch seconds.
    pub created: Option<i64>,
    pub labels: Option<Vec<(String, String)>>,
}

pub open spec fn container_compact_spec(c: ContainerSummary, show_labels: bool) -> RowV {
    let status = c.status.deep_view();
    seq![
        ("name"@, CellV::One(str_opt_spec(clean_name_spec(c.names.deep_view())))),
        ("image"@, CellV::One(str_opt_spec(c.image.deep_view()))),
        ("state"@, CellV::One(str_opt_spec(c.state.deep_view()))),
        ("health"@, CellV::One(str_opt_spec(status_health_spec(status)))),
        ("exit_code"@, CellV::One(opt_int_spec(status_exit_code_spec(status)))),
        ("created"@, CellV::One(opt_epoch_spec(c.created))),
    ] + labels_column(show_labels, c.labels.deep_view())
}

fn as_str_opt(s: &Option<String>) -> (r: Option<&str>)
    ensures
        r.deep_view() == s.deep_view(),
{
    match s {
        Some(t) => Some(t.as_str()),
        None => None,
    }
}

/// One compact row: name, image, state, health, exit code, created.
pub fn compact(c: &ContainerSummary, decorators: Decorators) -> (row: Row)
    ensures
        row.deep_view() == container_compact_spec(*c, decorators.shows_labels()),
{
    let status = as_str_opt(&c.status);
    let mut row: Row = Vec::new();
    let name = clean_name(c.names.as_ref());
    put(&mut row, "name", Cell::One(str_opt(as_str_opt(&name))));
    put(&mut row, "image", Cell::One(str_opt(as_str_opt(&c.image))));
    put(&mut row, "state", Cell::One(enum_opt(as_str_opt(&c.state))));
    put(&mut row, "health", Cell::One(str_opt(status_health(status))));
    put(&mut row, "exit_code", Cell::One(opt_int(status_exit_code(status))));
    put(&mut row, "created", Cell::One(opt_epoch(c.created)));
    decorators.apply_labels(&mut row, c.labels.as_ref());
    assert(row.deep_view() =~= container_compact_spec(*c, decorators.shows_labels()));
    row
}

// ---------------------------------------------------------------------------
// Wide (from an inspect response)
// ---------------------------------------------------------------------------

/// A host binding of a container port.
pub struct PortBinding {
    pub host_ip: Option<String>,
    pub host_port: Option<String>,
}

impl DeepView for PortBinding {
    type V = (Option<Seq<char>>, Option<Seq<char>>);

    open spec fn deep_view(&self) -> (Option<Seq<char>>, Option<Seq<char>>) {
        (self.host_ip.deep_view(), self.host_port.deep_view())
    }
}

/// A mount of a container.
pub struct MountPoint {
    /// The mount type, by the name it serializes to (`bind`, `volume`, …).
    pub typ: Option<String>,
    pub source: Option<String>,
    pub destination: Option<String>,
    pub mode: Option<String>,
    pub rw: Option<bool>,
}

pub struct MountPointV {
    pub typ: Option<Seq<char>>,
    pub source: Option<Seq<char>>,
    pub destination: Option<Seq<char>>,
    pub mode: Option<Seq<char>>,
    pub rw: Option<bool>,
}

impl DeepView for MountPoint {
    type V = MountPointV;

    open spec fn deep_view(&self) -> MountPointV {
        MountPointV {
            typ: self.typ.deep_view(),
            source: self.source.deep_view(),
            destination: self.destination.deep_view(),
            mode: self.mode.deep_view(),
            rw: self.rw,
        }
    }
}

/// What the container inspect endpoint reports of one container, flattened:
/// the fields of its config and state are `None` when the config or state is.
pub struct ContainerDetails {
    pub name: Option<String>,
    pub id: Option<String>,
    /// The config's image.
    pub image: Option<String>,
    /// The state's status enum, by the name it serializes to.
    pub state: Option<String>,
    /// The state's health status enum, by the name it serializes to.
    pub health: Option<String>,
    pub running: Option<bool>,
    pub exit_code: Option<i64>,
    /// The config's command.
    pub cmd: Option<Vec<String>>,
    pub created: Option<String>,
    pub started_at: Option<String>,
    pub finished_at: Option<String>,
    pub restart_count: Option<i64>,
    /// Published ports, `port/proto` → host bindings, in the payload's order.
    pub ports: Option<Vec<(String, Option<Vec<PortBinding>>)>>,
    /// Attached networks, name → IP address, in the payload's order.
    pub networks: Option<Vec<(String, Option<String>)>>,
    pub mounts: Option<Vec<MountPoint>>,
    /// The config's labels.
    pub labels: Option<Vec<(String, String)>>,
}

/// A port written as text: an int cell when it parses as one, else the text.
pub open spec fn port_int_spec(s: Seq<char>) -> ScalarV {
    match parse_i64_spec(s) {
        Some(n) => ScalarV::Int(n as int),
        None => ScalarV::Str(s),
    }
}

/// A port written as text: an int cell when it parses as one, else the text.
pub fn port_int(s: &str) -> (r: Scalar)
    ensures
        r.deep_view() == port_int_spec(s@),
{
    match parse_i64(s) {
        Some(n) => Scalar::Int(n),
        None => Scalar::Str(owned(s)),
    }
}

/// A `port/proto` key, split at its first `/` (the protocol empty when none).
pub open spec fn port_key_spec(key: Seq<char>) -> (Seq<char>, Seq<char>) {
    match first_index_of(key, '/') {
        Some(i) => (key.subrange(0, i), key.subrange(i + 1, key.len() as int)),
        None => (key, Seq::empty()),
    }
}

pub type FieldsV = Seq<(Seq<char>, ScalarV)>;

pub open spec fn host_port_spec(p: Option<Seq<char>>) -> ScalarV {
    match p {
        Some(p) => if p.len() > 0 {
            port_int_spec(p)
        } else {
            ScalarV::Nothing
        },
        None => ScalarV::Nothing,
    }
}

/// The port record of one host binding.
pub open spec fn binding_row(
    port: Seq<char>,
    proto: Seq<char>,
    b: (Option<Seq<char>>, Option<Seq<char>>),
) -> FieldsV {
    seq![
        ("container_port"@, port_int_spec(port)),
        ("proto"@, ScalarV::Str(proto)),
        ("host_ip"@, str_opt_spec(b.0)),
        ("host_port"@, host_port_spec(b.1)),
    ]
}

/// The port record of an exposed but unpublished port.
pub open spec fn bare_port_row(port: Seq<char>, proto: Seq<char>) -> FieldsV {
    seq![
        ("container_port"@, port_int_spec(port)),
        ("proto"@, ScalarV::Str(proto)),
        ("host_ip"@, ScalarV::Nothing),
        ("host_port"@, ScalarV::Nothing),
    ]
}

/// The port records of one `port/proto` entry: one per host binding, or a
/// single bare record when there is none.
pub open spec fn entry_rows(
    key: Seq<char>,
    bindings: Option<Seq<(Option<Seq<char>>, Option<Seq<char>>)>>,
) -> Seq<FieldsV> {
    let (port, proto) = port_key_spec(key);
    match bindings {
        Some(bs) => if bs.len() > 0 {
            bs.map_values(|b: (Option<Seq<char>>, Option<Seq<char>>)| binding_row(port, proto, b))
        } else {
            seq![bare_port_row(port, proto)]
        },
        None => seq![bare_port_row(port, proto)],
    }
}

pub open spec fn ports_rows(
    entries: Seq<(Seq<char>, Option<Seq<(Option<Seq<char>>, Option<Seq<char>>)>>)>,
) -> Seq<FieldsV>
    decreases entries.len(),
{
    if entries.len() == 0 {
        Seq::empty()
    } else {
        ports_rows(entries.drop_last()) + entry_rows(entries.last().0, entries.last().1)
    }
}

pub open spec fn ports_spec(
    ports: Option<Seq<(Seq<char>, Option<Seq<(Option<Seq<char>>, Option<Seq<char>>)>>)>>,
) -> CellV {
    match ports {
        Some(e) => CellV::Table(ports_rows(e)),
        None => CellV::Table(Seq::empty()),
    }
}

fn port_key(key: &str) -> (r: (&str, &str))
    ensures
        r.0@ == port_key_spec(key@).0,
        r.1@ == port_key_spec(key@).1,
{
    match split_once(key, '/') {
        Some(parts) => parts,
        None => {
            let n = key.unicode_len();
            let whole = crate::text::slice(key, 0, n);
            let none = crate::text::slice(key, 0, 0);
            assert(whole@ =~= key@);
            assert(none@ =~= Seq::<char>::empty());
            (whole, none)
        },
    }
}

fn binding_record(port: &str, proto: &str, b: &PortBinding) -> (r: Vec<Field>)
    ensures
        r.deep_view() == binding_row(port@, proto@, b.deep_view()),
{
    let mut rec: Vec<Field> = Vec::new();
    put_field(&mut rec, "container_port", port_int(port));
    put_field(&mut rec, "proto", Scalar::Str(owned(proto)));
    put_field(&mut rec, "host_ip", str_opt(as_str_opt(&b.host_ip)));
    let hp = match &b.host_port {
        Some(p) => if p.as_str().unicode_len() > 0 {
            port_int(p.as_str())
        } else {
            Scalar::Nothing
        },
        None => Scalar::Nothing,
    };
    put_field(&mut rec, "host_port", hp);
    assert(rec.deep_view() =~= binding_row(port@, proto@, b.deep_view()));
    rec
}

fn bare_record(port: &str, proto: &str) -> (r: Vec<Field>)
    ensures
        r.deep_view() == bare_port_row(port@, proto@),
{
    let mut rec: Vec<Field> = Vec::new();
    put_field(&mut rec, "container_port", port_int(port));
    put_field(&mut rec, "proto", Scalar::Str(owned(proto)));
    put_field(&mut rec, "host_ip", Scalar::Nothing);
    put_field(&mut rec, "host_port", Scalar::Nothing);
    assert(rec.deep_view() =~= bare_port_row(port@, proto@));
    rec
}

fn push_entry_rows(
    rows: &mut Vec<Vec<Field>>,
    key: &String,
    bindings: &Option<Vec<PortBinding>>,
)
    ensures
        final(rows).deep_view() == old(rows).deep_view() + entry_rows(key@, bindings.deep_view()),
{
    let (port, proto) = port_key(key.as_str());
    let ghost before = rows.deep_view();
    let ghost pp = port_key_spec(key@);
    match bindings {
        Some(bs) => {
            if bs.len() > 0 {
                let mut j: usize = 0;
                while j < bs.len()
                    invariant
                        j <= bs@.len(),
                        port@ == pp.0,
                        proto@ == pp.1,
                        rows.deep_view() =~= before + bs.deep_view().take(j as int).map_values(
                            |b: (Option<Seq<char>>, Option<Seq<char>>)| binding_row(pp.0, pp.1, b),
                        ),
                    decreases bs@.len() - j,
                {
                    let ghost mid = rows.deep_view();
                    let rec = binding_record(port, proto, &bs[j]);
                    rows.push(rec);
                    assert(rows.deep_view() =~= mid.push(binding_row(pp.0, pp.1, bs[j as int].deep_view())));
                    assert(bs.deep_view().take(j + 1) =~= bs.deep_view().take(j as int).push(
                        bs[j as int].deep_view(),
                    ));
                    assert(bs.deep_view().take(j + 1).map_values(
                        |b: (Option<Seq<char>>, Option<Seq<char>>)| binding_row(pp.0, pp.1, b),
                    ) =~= bs.deep_view().take(j as int).map_values(
                        |b: (Option<Seq<char>>, Option<Seq<char>>)| binding_row(pp.0, pp.1, b),
                    ).push(binding_row(pp.0, pp.1, bs[j as int].deep_view())));
                    j = j + 1;
                }
                assert(bs.deep_view().take(j as int) =~= bs.deep_view());
            } else {
                rows.push(bare_record(port, proto));
                assert(rows.deep_view() =~= before + seq![bare_port_row(pp.0, pp.1)]);
            }
        },
        None => {
            rows.push(bare_record(port, proto));
            assert(rows.deep_view() =~= before + seq![bare_port_row(pp.0, pp.1)]);
        },
    }
}

/// The published ports as a table of `{container_port, proto, host_ip,
/// host_port}` records: one per host binding, one bare record per port with
/// none.
pub fn ports_value(ports: &Option<Vec<(String, Option<Vec<PortBinding>>)>>) -> (c: Cell)
    ensures
        c.deep_view() == ports_spec(ports.deep_view()),
{
    let mut rows: Vec<Vec<Field>> = Vec::new();
    match ports {
        Some(entries) => {
            let mut i: usize = 0;
            while i < entries.len()
                invariant
                    i <= entries@.len(),
                    rows.deep_view() == ports_rows(entries.deep_view().take(i as int)),
                decreases entries@.len() - i,
            {
                push_entry_rows(&mut rows, &entries[i].0, &entries[i].1);
                assert(entries.deep_view().take(i + 1).drop_last() =~= entries.deep_view().take(
                    i as int,
                ));
                i = i + 1;
            }
            assert(entries.deep_view().take(i as int) =~= entries.deep_view());
        },
        None => {
            assert(rows.deep_view() =~= Seq::<FieldsV>::empty());
        },
    }
    Cell::Table(rows)
}

/// The first non-empty IP address among the attached networks.
pub open spec fn first_ip(nets: Seq<(Seq<char>, Option<Seq<char>>)>) -> Option<Seq<char>>
    decreases nets.len(),
{
    if nets.len() == 0 {
        None
    } else {
        match nets[0].1 {
            Some(ip) => if ip.len() > 0 {
                Some(ip)
            } else {
                first_ip(nets.drop_first())
            },
            None => first_ip(nets.drop_first()),
        }
    }
}

pub open spec fn ip_spec(nets: Option<Seq<(Seq<char>, Option<Seq<char>>)>>) -> ScalarV {
    match nets {
        Some(n) => str_opt_spec(first_ip(n)),
        None => ScalarV::Nothing,
    }
}

/// The container's IP: the first non-empty address among its networks.
pub fn ip_value(networks: &Option<Vec<(String, Option<String>)>>) -> (r: Scalar)
    ensures
        r.deep_view() == ip_spec(networks.deep_view()),
{
    match networks {
        Some(nets) => {
            let ghost all = nets.deep_view();
            let mut i: usize = 0;
            assert(all.subrange(0, all.len() as int) =~= all);
            while i < nets.len()
                invariant
                    i <= nets@.len(),
                    all == nets.deep_view(),
                    networks.deep_view() == Some(all),
                    first_ip(all) == first_ip(all.subrange(i as int, all.len() as int)),
                decreases nets@.len() - i,
            {
                let ghost rest = all.subrange(i as int, all.len() as int);
                assert(rest.drop_first() =~= all.subrange(i + 1, all.len() as int));
                assert(rest[0] == nets[i as int].deep_view());
                match &nets[i].1 {
                    Some(ip) => {
                        if ip.as_str().unicode_len() > 0 {
                            assert(rest[0].1 == Some(ip@));
                            assert(first_ip(rest) == Some(ip@));
                            assert(networks.deep_view() == Some(all));
                            let r = str_opt(Some(ip.as_str()));
                            assert(r.deep_view() == ScalarV::Str(ip@));
                            return r;
                        }
                    },
                    None => {},
                }
                i = i + 1;
            }
            assert(all.subrange(i as int, all.len() as int) =~= Seq::<
                (Seq<char>, Option<Seq<char>>),
            >::empty());
            Scalar::Nothing
        },
        None => Scalar::Nothing,
    }
}

pub open spec fn networks_spec(nets: Option<Seq<(Seq<char>, Option<Seq<char>>)>>) -> CellV {
    match nets {
        Some(n) => CellV::List(
            n.map_values(|e: (Seq<char>, Option<Seq<char>>)| ScalarV::Str(e.0)),
        ),
        None => CellV::List(Seq::empty()),
    }
}

/// The names of the attached networks.
pub fn networks_value(networks: &Option<Vec<(String, Option<String>)>>) -> (c: Cell)
    ensures
        c.deep_view() == networks_spec(networks.deep_view()),
{
    let mut out: Vec<Scalar> = Vec::new();
    match networks {
        Some(nets) => {
            let mut i: usize = 0;
            while i < nets.len()
                invariant
                    i <= nets@.len(),
                    out.deep_view() =~= nets.deep_view().take(i as int).map_values(
                        |e: (Seq<char>, Option<Seq<char>>)| ScalarV::Str(e.0),
                    ),
                decreases nets@.len() - i,
            {
                let ghost before = out.deep_view();
                let name = nets[i].0.clone();
                out.push(Scalar::Str(name));
                let ghost e = nets[i as int].deep_view();
                assert(out.deep_view() =~= before.push(ScalarV::Str(e.0)));
                assert(nets.deep_view().take(i + 1) =~= nets.deep_view().take(i as int).push(e));
                assert(nets.deep_view().take(i + 1).map_values(
                    |e: (Seq<char>, Option<Seq<char>>)| ScalarV::Str(e.0),
                ) =~= nets.deep_view().take(i as int).map_values(
                    |e: (Seq<char>, Option<Seq<char>>)| ScalarV::Str(e.0),
                ).push(ScalarV::Str(e.0)));
                i = i + 1;
            }
            assert(nets.deep_view().take(i as int) =~= nets.deep_view());
        },
        None => {
            assert(out.deep_view() =~= Seq::<ScalarV>::empty());
        },
    }
    Cell::List(out)
}

/// The record of one mount.
pub open spec fn mount_row(m: MountPointV) -> FieldsV {
    seq![
        ("type"@, str_opt_spec(m.typ)),
        ("source"@, str_opt_spec(m.source)),
        ("destination"@, str_opt_spec(m.destination)),
        ("mode"@, str_opt_spec(m.mode)),
        ("rw"@, opt_bool_spec(m.rw)),
    ]
}

pub open spec fn mounts_spec(mounts: Option<Seq<MountPointV>>) -> CellV {
    match mounts {
        Some(ms) => CellV::Table(ms.map_values(|m: MountPointV| mount_row(m))),
        None => CellV::Table(Seq::empty()),
    }
}

fn mount_record(m: &MountPoint) -> (r: Vec<Field>)
    ensures
        r.deep_view() == mount_row(m.deep_view()),
{
    let mut rec: Vec<Field> = Vec::new();
    put_field(&mut rec, "type", enum_opt(as_str_opt(&m.typ)));
    put_field(&mut rec, "source", str_opt(as_str_opt(&m.source)));
    put_field(&mut rec, "destination", str_opt(as_str_opt(&m.destination)));
    put_field(&mut rec, "mode", str_opt(as_str_opt(&m.mode)));
    put_field(&mut rec, "rw", opt_bool(m.rw));
    assert(rec.deep_view() =~= mount_row(m.deep_view()));
    rec
}

/// The mounts as a table of `{type, source, destination, mode, rw}` records.
pub fn mounts_value(mounts: &Option<Vec<MountPoint>>) -> (c: Cell)
    ensures
        c.deep_view() == mounts_spec(mounts.deep_view()),
{
    let mut rows: Vec<Vec<Field>> = Vec::new();
    match mounts {
        Some(ms) => {
            let mut i: usize = 0;
            while i < ms.len()
                invariant
                    i <= ms@.len(),
                    rows.deep_view() =~= ms.deep_view().take(i as int).map_values(
                        |m: MountPointV| mount_row(m),
                    ),
                decreases ms@.len() - i,
            {
                let ghost before = rows.deep_view();
                rows.push(mount_record(&ms[i]));
                let ghost e = ms[i as int].deep_view();
                assert(rows.deep_view() =~= before.push(mount_row(e)));
                assert(ms.deep_view().take(i + 1) =~= ms.deep_view().take(i as int).push(e));
                assert(ms.deep_view().take(i + 1).map_values(|m: MountPointV| mount_row(m))
                    =~= ms.deep_view().take(i as int).map_values(|m: MountPointV| mount_row(m)).push(
                    mount_row(e),
                ));
                i = i + 1;
            }
            assert(ms.deep_view().take(i as int) =~= ms.deep_view());
        },
        None => {
            assert(rows.deep_view() =~= Seq::<FieldsV>::empty());
        },
    }
    Cell::Table(rows)
}

pub open spec fn map_opt(s: Option<Seq<char>>, f: spec_fn(Seq<char>) -> Seq<char>) -> Option<
    Seq<char>,
> {
    match s {
        Some(t) => Some(f(t)),
        None => None,
    }
}

/// The exit code, reported only for a container that is not running.
pub open spec fn stopped_exit_code(running: Option<bool>, exit_code: Option<i64>) -> Option<i64> {
    if running == Some(true) {
        None
    } else {
        exit_code
    }
}

pub open spec fn container_wide_spec(r: ContainerDetails, show_labels: bool) -> RowV {
    seq![
        ("name"@, CellV::One(
            str_opt_spec(map_opt(r.name.deep_view(), |n: Seq<char>| drop_leading(n, '/'))),
        )),
        ("id"@, CellV::One(
            str_opt_spec(map_opt(r.id.deep_view(), |i: Seq<char>| take_at_most(i, 12))),
        )),
        ("image"@, CellV::One(str_opt_spec(r.image.deep_view()))),
        ("state"@, CellV::One(str_opt_spec(r.state.deep_view()))),
        ("health"@, CellV::One(str_opt_spec(r.health.deep_view()))),
        ("exit_code"@, CellV::One(opt_int_spec(stopped_exit_code(r.running, r.exit_code)))),
        ("command"@, str_list_spec(r.cmd.deep_view())),
        ("created"@, CellV::One(opt_rfc3339_spec(r.created.deep_view()))),
        ("started"@, CellV::One(opt_rfc3339_spec(r.started_at.deep_view()))),
        ("finished"@, CellV::One(opt_rfc3339_spec(r.finished_at.deep_view()))),
        ("restarts"@, CellV::One(opt_int_spec(r.restart_count))),
        ("ports"@, ports_spec(r.ports.deep_view())),
        ("ip"@, CellV::One(ip_spec(r.networks.deep_view()))),
        ("networks"@, networks_spec(r.networks.deep_view())),
        ("mounts"@, mounts_spec(r.mounts.deep_view())),
    ] + labels_column(show_labels, r.labels.deep_view())
}

/// One wide row: identity, state, command, timestamps, ports, networks,
/// mounts.
pub fn wide(r: &ContainerDetails, decorators: Decorators) -> (row: Row)
    ensures
        row.deep_view() == container_wide_spec(*r, decorators.shows_labels()),
{
    let mut row: Row = Vec::new();
    let name = match &r.name {
        Some(n) => Some(trim_start_char(n.as_str(), '/')),
        None => None,
    };
    assert(name.deep_view() == map_opt(r.name.deep_view(), |n: Seq<char>| drop_leading(n, '/')));
    put(&mut row, "name", Cell::One(str_opt(name)));
    let id = match &r.id {
        Some(i) => Some(short_id(i.as_str())),
        None => None,
    };
    assert(id.deep_view() == map_opt(r.id.deep_view(), |i: Seq<char>| take_at_most(i, 12)));
    put(&mut row, "id", Cell::One(str_opt(as_str_opt(&id))));
    put(&mut row, "image", Cell::One(str_opt(as_str_opt(&r.image))));
    put(&mut row, "state", Cell::One(enum_opt(as_str_opt(&r.state))));
    put(&mut row, "health", Cell::One(enum_opt(as_str_opt(&r.health))));
    let running = match r.running {
        Some(b) => b,
        None => false,
    };
    let exit = if running {
        None
    } else {
        r.exit_code
    };
    put(&mut row, "exit_code", Cell::One(opt_int(exit)));
    put(&mut row, "command", str_list(r.cmd.as_ref()));
    put(&mut row, "created", Cell::One(opt_rfc3339(as_str_opt(&r.created))));
    put(&mut row, "started", Cell::One(opt_rfc3339(as_str_opt(&r.started_at))));
    put(&mut row, "finished", Cell::One(opt_rfc3339(as_str_opt(&r.finished_at))));
    put(&mut row, "restarts", Cell::One(opt_int(r.restart_count)));
    put(&mut row, "ports", ports_value(&r.ports));
    put(&mut row, "ip", Cell::One(ip_value(&r.networks)));
    put(&mut row, "networks", networks_value(&r.networks));
    put(&mut row, "mounts", mounts_value(&r.mounts));
    decorators.apply_labels(&mut row, r.labels.as_ref());
    assert(row.deep_view() =~= container_wide_spec(*r, decorators.shows_labels()));
    row
}

// ---------------------------------------------------------------------------
// The commands
// ---------------------------------------------------------------------------

/// Docker's container list filters — the single source of truth for both the
/// signature and the request builder.
pub open spec fn container_filter_table() -> Seq<FilterArg> {
    seq![
        FilterArg {
            flag: "status",
            api_key: "status",
            shape: Shape::Str,
            help: "State: created|restarting|running|removing|paused|exited|dead",
        },
        FilterArg {
            flag: "health",
            api_key: "health",
            shape: Shape::Str,
            help: "Health: starting|healthy|unhealthy|none",
        },
        FilterArg {
            flag: "exited",
            api_key: "exited",
            shape: Shape::Int,
            help: "Exit code (matches stopped containers)",
        },
        FilterArg {
            flag: "ancestor",
            api_key: "ancestor",
            shape: Shape::Str,
            help: "Created from this image (name[:tag], id, or digest)",
        },
        FilterArg {
            flag: "before",
            api_key: "before",
            shape: Shape::Str,
            help: "Created before this container (name or id)",
        },
        FilterArg {
            flag: "since",
            api_key: "since",
            shape: Shape::Str,
            help: "Created since this container (name or id)",
        },
        FilterArg {
            flag: "name",
            api_key: "name",
            shape: Shape::Str,
            help: "Name substring (use `inspect` for an exact lookup)",
        },
        FilterArg { flag: "id", api_key: "id", shape: Shape::Str, help: "Container id prefix" },
        FilterArg {
            flag: "network",
            api_key: "network",
            shape: Shape::Str,
            help: "Attached to this network (name or id)",
        },
        FilterArg {
            flag: "volume",
            api_key: "volume",
            shape: Shape::Str,
            help: "Uses this volume (name or mount destination)",
        },
        FilterArg {
            flag: "publish",
            api_key: "publish",
            shape: Shape::Str,
            help: "Publishes this port (`port[/proto]` or `start-end[/proto]`)",
        },
        FilterArg {
            flag: "expose",
            api_key: "expose",
            shape: Shape::Str,
            help: "Exposes this port (`port[/proto]` or `start-end[/proto]`)",
        },
        FilterArg {
            flag: "labels",
            api_key: "label",
            shape: Shape::Labels,
            help: "Labels, comma-separated: `key` or `key=value` (e.g. `a=b,c=d`)",
        },
        FilterArg {
            flag: "is-task",
            api_key: "is-task",
            shape: Shape::Switch,
            help: "Only swarm service tasks",
        },
    ]
}

/// The container list filters.
pub fn container_filters() -> (v: Vec<FilterArg>)
    ensures
        v@ == container_filter_table(),
{
    let v = vec![
        FilterArg::string(
            "status",
            "State: created|restarting|running|removing|paused|exited|dead",
        ),
        FilterArg::string("health", "Health: starting|healthy|unhealthy|none"),
        FilterArg::integer("exited", "Exit code (matches stopped containers)"),
        FilterArg::string("ancestor", "Created from this image (name[:tag], id, or digest)"),
        FilterArg::string("before", "Created before this container (name or id)"),
        FilterArg::string("since", "Created since this container (name or id)"),
        FilterArg::string("name", "Name substring (use `inspect` for an exact lookup)"),
        FilterArg::string("id", "Container id prefix"),
        FilterArg::string("network", "Attached to this network (name or id)"),
        FilterArg::string("volume", "Uses this volume (name or mount destination)"),
        FilterArg::string("publish", "Publishes this port (`port[/proto]` or `start-end[/proto]`)"),
        FilterArg::string("expose", "Exposes this port (`port[/proto]` or `start-end[/proto]`)"),
        FilterArg::labels(),
        FilterArg::switch("is-task", "Only swarm service tasks"),
    ];
    assert(v@ =~= container_filter_table());
    v
}

pub open spec fn container_ls_completion_spec(arg: ArgKindV) -> CompletionSource {
    match arg {
        ArgKindV::Flag(n) => if is_output_flag(n) {
            CompletionSource::OutputFormats
        } else if n == "status"@ {
            CompletionSource::Status
        } else if n == "health"@ {
            CompletionSource::Health
        } else if n == "name"@ || n == "before"@ || n == "since"@ {
            CompletionSource::ContainerNames
        } else if n == "id"@ {
            CompletionSource::ContainerIds
        } else if n == "ancestor"@ {
            CompletionSource::ImageRefs
        } else if n == "network"@ {
            CompletionSource::NetworkNames
        } else if n == "volume"@ {
            CompletionSource::VolumeNames
        } else if n == "labels"@ {
            CompletionSource::ContainerLabels
        } else {
            CompletionSource::Nothing
        },
        ArgKindV::Positional(_) => CompletionSource::Nothing,
    }
}

impl ContainerLsCommand {
    pub fn name(&self) -> (r: &'static str)
        ensures
            r@ == "nude container ls"@,
    {
        "nude container ls"
    }

    pub fn description(&self) -> (r: &'static str)
        ensures
            r@ == "List containers"@,
    {
        "List containers"
    }

    /// `--output`, `--all`, `--show-labels`, and one flag per filter.
    pub fn signature(&self) -> (sig: SignatureSpec)
        ensures
            sig.name@ == "nude container ls"@,
            docker_command(sig),
            sig.required is None,
            sig.flags.deep_view() == list_flags_of(
                Some("Include stopped containers"),
                true,
                "container"@,
                container_filter_table(),
            ),
    {
        list_signature(
            &CommandSpec {
                cmd: "nude container ls",
                noun: "container",
                all_help: Some("Include stopped containers"),
                show_labels: true,
                filters: container_filters(),
            },
        )
    }

    /// Where the candidates for a flag come from: closed enums for state and
    /// health, live names/ids for container references, the owning resource
    /// for cross-references, and the containers' labels for `--labels`.
    pub fn completion(&self, arg: &ArgKind) -> (r: CompletionSource)
        ensures
            r == container_ls_completion_spec(arg.deep_view()),
    {
        match arg {
            ArgKind::Flag(n) => {
                let n = n.as_str();
                if output_flag_name(n) {
                    CompletionSource::OutputFormats
                } else if str_eq(n, "status") {
                    CompletionSource::Status
                } else if str_eq(n, "health") {
                    CompletionSource::Health
                } else if str_eq(n, "name") || str_eq(n, "before") || str_eq(n, "since") {
                    CompletionSource::ContainerNames
                } else if str_eq(n, "id") {
                    CompletionSource::ContainerIds
                } else if str_eq(n, "ancestor") {
                    CompletionSource::ImageRefs
                } else if str_eq(n, "network") {
                    CompletionSource::NetworkNames
                } else if str_eq(n, "volume") {
                    CompletionSource::VolumeNames
                } else if str_eq(n, "labels") {
                    CompletionSource::ContainerLabels
                } else {
                    CompletionSource::Nothing
                }
            },
            ArgKind::Positional(_) => CompletionSource::Nothing,
        }
    }
}

impl ContainerInspectCommand {
    pub fn name(&self) -> (r: &'static str)
        ensures
            r@ == "nude container inspect"@,
    {
        "nude container inspect"
    }

    pub fn description(&self) -> (r: &'static str)
        ensures
            r@ == "Inspect a container by name/ID"@,
    {
        "Inspect a container by name/ID"
    }

    /// The container reference, `--output` and `--show-labels`.
    pub fn signature(&self) -> (sig: SignatureSpec)
        ensures
            sig.name@ == "nude container inspect"@,
            docker_command(sig),
            sig.required matches Some((n, h)) && n@ == "name"@ && h@ == "Container name or ID"@,
            sig.flags.deep_view() == inspect_flags_spec(Some("container"@)),
    {
        inspect_signature("nude container inspect", "Container name or ID", Some("container"))
    }

    /// Container names for the positional, formats for `--output`.
    pub fn completion(&self, arg: &ArgKind) -> (r: CompletionSource)
        ensures
            r == ref_and_output_spec(arg.deep_view(), CompletionSource::ContainerNames),
    {
        ref_and_output(arg, CompletionSource::ContainerNames)
    }
}

pub open spec fn summary_id(c: ContainerSummary) -> Option<Seq<char>> {
    c.id.deep_view()
}

pub open spec fn list_plan_spec(summaries: Seq<ContainerSummary>, fmt: OutputFormat, show: bool) -> ListPlanV {
    if fmt == OutputFormat::Compact {
        ListPlanV::Rows(summaries.map_values(|c: ContainerSummary| container_compact_spec(c, show)))
    } else {
        ListPlanV::Inspect(summaries.filter_map(|c: ContainerSummary| summary_id(c)))
    }
}

/// The decision `ls` takes once the daemon has listed the containers.
pub fn list_plan(summaries: &Vec<ContainerSummary>, fmt: OutputFormat, decorators: Decorators) -> (r:
    ListPlan)
    ensures
        r.deep_view() == list_plan_spec(summaries@, fmt, decorators.shows_labels()),
{
    let ghost show = decorators.shows_labels();
    if fmt == OutputFormat::Compact {
        let mut rows: Vec<Row> = Vec::new();
        let mut i: usize = 0;
        while i < summaries.len()
            invariant
                i <= summaries@.len(),
                show == decorators.shows_labels(),
                rows.deep_view() =~= summaries@.take(i as int).map_values(
                    |c: ContainerSummary| container_compact_spec(c, show),
                ),
            decreases summaries@.len() - i,
        {
            let ghost before = rows.deep_view();
            rows.push(compact(&summaries[i], decorators));
            assert(rows.deep_view() =~= before.push(container_compact_spec(summaries@[i as int], show)));
            assert(summaries@.take(i + 1) =~= summaries@.take(i as int).push(summaries@[i as int]));
            assert(summaries@.take(i + 1).map_values(
                |c: ContainerSummary| container_compact_spec(c, show),
            ) =~= summaries@.take(i as int).map_values(
                |c: ContainerSummary| container_compact_spec(c, show),
            ).push(container_compact_spec(summaries@[i as int], show)));
            i = i + 1;
        }
        assert(summaries@.take(i as int) =~= summaries@);
        ListPlan::Rows(rows)
    } else {
        let mut ids: Vec<String> = Vec::new();
        let mut i: usize = 0;
        while i < summaries.len()
            invariant
                i <= summaries@.len(),
                ids.deep_view() =~= summaries@.take(i as int).filter_map(
                    |c: ContainerSummary| summary_id(c),
                ),
            decreases summaries@.len() - i,
        {
            let ghost before = ids.deep_view();
            assert(summaries@.take(i + 1).drop_last() =~= summaries@.take(i as int));
            match &summaries[i].id {
                Some(id) => {
                    ids.push(id.clone());
                    assert(ids.deep_view() =~= before + seq![id@]);
                },
                None => {},
            }
            i = i + 1;
        }
        assert(summaries@.take(i as int) =~= summaries@);
        ListPlan::Inspect(ids)
    }
}

pub open spec fn inspected_spec(details: Seq<ContainerDetails>, fmt: OutputFormat, show: bool) -> RenderingV {
    if fmt == OutputFormat::Full {
        RenderingV::Raw
    } else {
        RenderingV::Rows(details.map_values(|r: ContainerDetails| container_wide_spec(r, show)))
    }
}

/// What `ls -o wide|full` and `inspect` show of the inspected containers:
/// the raw payloads for `full`, wide rows otherwise.
pub fn inspected_rendering(details: &Vec<ContainerDetails>, fmt: OutputFormat, decorators: Decorators) -> (r: Rendering)
    ensures
        r.deep_view() == inspected_spec(details@, fmt, decorators.shows_labels()),
{
    if fmt == OutputFormat::Full {
        return Rendering::Raw;
    }
    let ghost show = decorators.shows_labels();
    let mut rows: Vec<Row> = Vec::new();
    let mut i: usize = 0;
    while i < details.len()
        invariant
            i <= details@.len(),
            show == decorators.shows_labels(),
            rows.deep_view() =~= details@.take(i as int).map_values(
                |r: ContainerDetails| container_wide_spec(r, show),
            ),
        decreases details@.len() - i,
    {
        let ghost before = rows.deep_view();
        rows.push(wide(&details[i], decorators));
        assert(rows.deep_view() =~= before.push(container_wide_spec(details@[i as int], show)));
        assert(details@.take(i + 1) =~= details@.take(i as int).push(details@[i as int]));
        assert(details@.take(i + 1).map_values(|r: ContainerDetails| container_wide_spec(r, show))
            =~= details@.take(i as int).map_values(
            |r: ContainerDetails| container_wide_spec(r, show),
        ).push(container_wide_spec(details@[i as int], show)));
        i = i + 1;
    }
    assert(details@.take(i as int) =~= details@);
    Rendering::Rows(rows)
}

// ---------------------------------------------------------------------------
// Live candidates
// ---------------------------------------------------------------------------

pub open spec fn name_candidate(c: ContainerSummary) -> Option<SuggestionV> {
    match clean_name_spec(c.names.deep_view()) {
        Some(n) => Some(
            SuggestionV { value: n, description: c.status.deep_view(), append_whitespace: true },
        ),
        None => None,
    }
}

/// Container names as candidates, described by their status line; a
/// container without a name is skipped.
pub fn complete_names(summaries: &Vec<ContainerSummary>) -> (r: Vec<Suggestion>)
    ensures
        r.deep_view() == summaries@.filter_map(|c: ContainerSummary| name_candidate(c)),
{
    let mut out: Vec<Suggestion> = Vec::new();
    let mut i: usize = 0;
    while i < summaries.len()
        invariant
            i <= summaries@.len(),
            out.deep_view() =~= summaries@.take(i as int).filter_map(
                |c: ContainerSummary| name_candidate(c),
            ),
        decreases summaries@.len() - i,
    {
        let ghost before = out.deep_view();
        assert(summaries@.take(i + 1).drop_last() =~= summaries@.take(i as int));
        let c = &summaries[i];
        match clean_name(c.names.as_ref()) {
            Some(n) => {
                let s = Suggestion { value: n, description: c.status.clone(), append_whitespace: true };
                let ghost sv = s.deep_view();
                out.push(s);
                assert(out.deep_view() =~= before + seq![sv]);
            },
            None => {},
        }
        i = i + 1;
    }
    assert(summaries@.take(i as int) =~= summaries@);
    out
}

pub open spec fn id_candidate(c: ContainerSummary) -> Option<SuggestionV> {
    match c.id.deep_view() {
        Some(id) => Some(
            SuggestionV {
                value: id,
                description: clean_name_spec(c.names.deep_view()),
                append_whitespace: true,
            },
        ),
        None => None,
    }
}

/// Container ids as candidates, described by the container's name; a
/// container without an id is skipped.
pub fn complete_ids(summaries: &Vec<ContainerSummary>) -> (r: Vec<Suggestion>)
    ensures
        r.deep_view() == summaries@.filter_map(|c: ContainerSummary| id_candidate(c)),
{
    let mut out: Vec<Suggestion> = Vec::new();
    let mut i: usize = 0;
    while i < summaries.len()
        invariant
            i <= summaries@.len(),
            out.deep_view() =~= summaries@.take(i as int).filter_map(
                |c: ContainerSummary| id_candidate(c),
            ),
        decreases summaries@.len() - i,
    {
        let ghost before = out.deep_view();
        assert(summaries@.take(i + 1).drop_last() =~= summaries@.take(i as int));
        let c = &summaries[i];
        match &c.id {
            Some(id) => {
                let s = Suggestion {
                    value: id.clone(),
                    description: clean_name(c.names.as_ref()),
                    append_whitespace: true,
                };
                let ghost sv = s.deep_view();
                out.push(s);
                assert(out.deep_view() =~= before + seq![sv]);
            },
            None => {},
        }
        i = i + 1;
    }
    assert(summaries@.take(i as int) =~= summaries@);
    out
}

} // verus!
