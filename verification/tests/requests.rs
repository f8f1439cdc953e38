use std::str::FromStr;

use nude::commands::aliases::{InfoCommand, PsCommand};
use nude::commands::container::{container_filters, list_plan, ContainerLsCommand, ContainerSummary};
use nude::commands::image::ImageLsCommand;
use nude::commands::plugin::PluginLsCommand;
use nude::commands::search::{search_filters, ImageSearchCommand};
use nude::commands::volume::{volume_filters, VolumeInspectCommand};
use nude::completers::{ArgKind, CompletionSource};
use nude::decorators::Decorators;
use nude::output::{output_format, OutputFormat};
use nude::scaffold::{collect_filters, FilterArg, FlagKind, FlagValue, IoType, Shape, SignatureSpec};
use nude::value::ListPlan;

fn flag_names(sig: &SignatureSpec) -> Vec<&str> {
    sig.flags.iter().map(|f| f.name.as_str()).collect()
}

fn flag(name: &str) -> ArgKind {
    ArgKind::Flag(name.to_string())
}

#[test]
fn output_defaults_to_wide_for_one_object_and_compact_for_a_list() {
    assert_eq!(output_format(None, true), OutputFormat::Wide);
    assert_eq!(output_format(None, false), OutputFormat::Compact);
    assert_eq!(output_format(Some("bogus"), true), OutputFormat::Wide);
    assert_eq!(output_format(Some("full"), false), OutputFormat::Full);
    assert_eq!(output_format(Some("compact"), true), OutputFormat::Compact);
    assert_eq!(OutputFormat::from_str("wide"), Ok(OutputFormat::Wide));
    assert_eq!(OutputFormat::from_str("Wide"), Err(()));
    assert_eq!(OutputFormat::default(), OutputFormat::Compact);
}

#[test]
fn search_filters_use_the_api_keys() {
    let filters = search_filters();
    let values = vec![FlagValue::Number(100), FlagValue::Present];
    let m = collect_filters(&filters, &values);
    assert_eq!(m.entries.len(), 2);
    assert_eq!(m.entries[0], ("stars".to_string(), vec!["100".to_string()]));
    assert_eq!(m.entries[1], ("is-official".to_string(), vec!["true".to_string()]));
}

#[test]
fn labels_are_split_into_the_label_filter() {
    let filters = volume_filters();
    let values = vec![
        FlagValue::Text("local".to_string()),
        FlagValue::Absent,
        FlagValue::Absent,
        FlagValue::Text("app=web, tier=db".to_string()),
    ];
    let m = collect_filters(&filters, &values);
    assert_eq!(m.entries.len(), 2);
    assert_eq!(m.entries[0], ("driver".to_string(), vec!["local".to_string()]));
    assert_eq!(
        m.entries[1],
        ("label".to_string(), vec!["app=web".to_string(), "tier=db".to_string()])
    );
}

#[test]
fn empty_labels_and_absent_flags_send_nothing() {
    let filters = volume_filters();
    let values = vec![FlagValue::Absent, FlagValue::Absent, FlagValue::Absent, FlagValue::Text(" , ".to_string())];
    assert!(collect_filters(&filters, &values).entries.is_empty());
}

#[test]
fn a_negative_integer_filter_is_sent_as_printed() {
    let filters = vec![FilterArg::integer("exited", "Exit code")];
    let m = collect_filters(&filters, &vec![FlagValue::Number(-3)]);
    assert_eq!(m.entries[0], ("exited".to_string(), vec!["-3".to_string()]));
}

#[test]
fn filter_constructors_key_by_flag_except_labels() {
    let f = FilterArg::switch("dangling", "Only dangling");
    assert_eq!((f.flag, f.api_key, f.shape), ("dangling", "dangling", Shape::Switch));
    let l = FilterArg::labels();
    assert_eq!((l.flag, l.api_key, l.shape), ("labels", "label", Shape::Labels));
}

#[test]
fn container_ls_signature_has_every_filter_flag() {
    let sig = ContainerLsCommand.signature();
    assert_eq!(sig.name, "nude container ls");
    assert!(sig.required.is_none());
    let mut expected = vec!["output", "all", "show-labels"];
    let filters = container_filters();
    expected.extend(filters.iter().map(|f| f.flag));
    assert_eq!(flag_names(&sig), expected);
    assert_eq!(sig.flags[0].short, Some('o'));
    assert_eq!(sig.flags[1].short, Some('a'));
    assert_eq!(
        sig.flags[2].help,
        "Enrich each container with a `labels` column (compact/wide; full always has them)"
    );
    let exited = sig.flags.iter().find(|f| f.name == "exited").unwrap();
    assert_eq!(exited.kind, FlagKind::Int);
}

#[test]
fn plugins_have_neither_all_nor_show_labels() {
    let sig = PluginLsCommand.signature();
    assert_eq!(flag_names(&sig), ["output", "capability", "enabled"]);
}

#[test]
fn inspect_and_search_take_a_required_positional() {
    let sig = VolumeInspectCommand.signature();
    assert_eq!(sig.required, Some(("name".to_string(), "Volume name".to_string())));
    assert_eq!(flag_names(&sig), ["output", "show-labels"]);
    assert_eq!(sig.flags[0].help, "Output format: wide | full  (default: wide)");
    let search = ImageSearchCommand.signature();
    assert_eq!(search.required.as_ref().map(|r| r.0.as_str()), Some("term"));
    assert_eq!(flag_names(&search), ["output", "limit", "stars", "official"]);
}

#[test]
fn aliases_are_their_command_renamed() {
    let ps = PsCommand.signature();
    let ls = ContainerLsCommand.signature();
    assert_eq!(ps.name, "nude ps");
    assert_eq!(flag_names(&ps), flag_names(&ls));
    assert_eq!(PsCommand.completion(&flag("status")), CompletionSource::Status);
    assert_eq!(InfoCommand.signature().name, "nude info");
    assert_eq!(flag_names(&InfoCommand.signature()), ["output"]);
}

#[test]
fn completion_sources_follow_the_flag() {
    let ls = ContainerLsCommand;
    assert_eq!(ls.completion(&flag("o")), CompletionSource::OutputFormats);
    assert_eq!(ls.completion(&flag("ancestor")), CompletionSource::ImageRefs);
    assert_eq!(ls.completion(&flag("since")), CompletionSource::ContainerNames);
    assert_eq!(ls.completion(&flag("labels")), CompletionSource::ContainerLabels);
    assert_eq!(ls.completion(&flag("is-task")), CompletionSource::Nothing);
    assert_eq!(ls.completion(&ArgKind::Positional(0)), CompletionSource::Nothing);
    assert_eq!(ImageLsCommand.completion(&flag("dangling")), CompletionSource::Nothing);
    assert_eq!(VolumeInspectCommand.completion(&ArgKind::Positional(0)), CompletionSource::VolumeNames);
    assert_eq!(VolumeInspectCommand.completion(&ArgKind::Positional(1)), CompletionSource::Nothing);
    assert_eq!(ImageSearchCommand.completion(&flag("stars")), CompletionSource::Nothing);
}

#[test]
fn wide_listing_inspects_every_container_with_an_id() {
    let summaries = vec![
        ContainerSummary {
            id: Some("a1".to_string()),
            names: None,
            image: None,
            state: None,
            status: None,
            created: None,
            labels: None,
        },
        ContainerSummary {
            id: None,
            names: None,
            image: None,
            state: None,
            status: None,
            created: None,
            labels: None,
        },
    ];
    match list_plan(&summaries, OutputFormat::Wide, Decorators::default()) {
        ListPlan::Inspect(ids) => assert_eq!(ids, ["a1"]),
        ListPlan::Rows(_) => panic!("wide does not list compact rows"),
    }
    match list_plan(&summaries, OutputFormat::Compact, Decorators::default()) {
        ListPlan::Rows(rows) => assert_eq!(rows.len(), 2),
        ListPlan::Inspect(_) => panic!("compact does not inspect"),
    }
}

#[test]
fn every_signature_takes_nothing_and_sits_in_docker() {
    for sig in [
        ContainerLsCommand.signature(),
        VolumeInspectCommand.signature(),
        ImageSearchCommand.signature(),
        PsCommand.signature(),
        InfoCommand.signature(),
    ] {
        assert_eq!(sig.input_output, vec![(IoType::Nothing, IoType::Any)]);
        assert_eq!(sig.category, "docker");
    }
}
