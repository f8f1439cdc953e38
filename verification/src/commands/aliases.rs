//! Docker's short forms (`nude ps`, `nude images`, …): each alias is its
//! canonical command under another name, with the same flags, the same run
//! and the same completion.

use vstd::prelude::*;

use crate::commands::container::{
    container_filter_table, container_ls_completion_spec, ContainerLsCommand,
};
use crate::commands::detail::{ContainerDiffCommand, ContainerTopCommand, ImageHistoryCommand};
use crate::commands::image::{image_filter_table, image_ls_completion_spec, ImageLsCommand};
use crate::commands::system::SystemInfoCommand;
use crate::completers::{output_completion_spec, ref_and_output_spec, ArgKind, CompletionSource};
use crate::scaffold::{list_flags_of, list_output_help, output_flag, docker_command, SignatureSpec};
use crate::text::owned;

verus! {

/// `nude ps`, the alias of `nude container ls`.
pub struct PsCommand;

/// `nude images`, the alias of `nude image ls`.
pub struct ImagesCommand;

/// `nude top`, the alias of `nude container top`.
pub struct TopCommand;

/// `nude diff`, the alias of `nude container diff`.
pub struct DiffCommand;

/// `nude history`, the alias of `nude image history`.
pub struct HistoryCommand;

/// `nude info`, the alias of `nude system info`.
pub struct InfoCommand;

/// A canonical signature under the alias's name.
fn renamed(sig: SignatureSpec, name: &str) -> (r: SignatureSpec)
    ensures
        r.name@ == name@,
        r.required == sig.required,
        r.flags == sig.flags,
        r.input_output == sig.input_output,
        r.category == sig.category,
{
    let mut sig = sig;
    sig.name = owned(name);
    sig
}

impl PsCommand {
    pub fn name(&self) -> (r: &'static str)
        ensures
            r@ == "nude ps"@,
    {
        "nude ps"
    }

    pub fn description(&self) -> (r: &'static str)
        ensures
            r@ == "List containers (alias of `container ls`)"@,
    {
        "List containers (alias of `container ls`)"
    }

    /// The signature of `container ls`, renamed.
    pub fn signature(&self) -> (sig: SignatureSpec)
        ensures
            sig.name@ == "nude ps"@,
            docker_command(sig),
            sig.required is None,
            sig.flags.deep_view() == list_flags_of(
                Some("Include stopped containers"),
                true,
                "container"@,
                container_filter_table(),
            ),
    {
        renamed(ContainerLsCommand.signature(), "nude ps")
    }

    pub fn completion(&self, arg: &ArgKind) -> (r: CompletionSource)
        ensures
            r == container_ls_completion_spec(arg.deep_view()),
    {
        ContainerLsCommand.completion(arg)
    }
}

impl ImagesCommand {
    pub fn name(&self) -> (r: &'static str)
        ensures
            r@ == "nude images"@,
    {
        "nude images"
    }

    pub fn description(&self) -> (r: &'static str)
        ensures
            r@ == "List images (alias of `image ls`)"@,
    {
        "List images (alias of `image ls`)"
    }

    /// The signature of `image ls`, renamed.
    pub fn signature(&self) -> (sig: SignatureSpec)
        ensures
            sig.name@ == "nude images"@,
            docker_command(sig),
            sig.required is None,
            sig.flags.deep_view() == list_flags_of(
                Some("Include intermediate (layer) images"),
                true,
                "image"@,
                image_filter_table(),
            ),
    {
        renamed(ImageLsCommand.signature(), "nude images")
    }

    pub fn completion(&self, arg: &ArgKind) -> (r: CompletionSource)
        ensures
            r == image_ls_completion_spec(arg.deep_view()),
    {
        ImageLsCommand.completion(arg)
    }
}

impl TopCommand {
    pub fn name(&self) -> (r: &'static str)
        ensures
            r@ == "nude top"@,
    {
        "nude top"
    }

    pub fn description(&self) -> (r: &'static str)
        ensures
            r@ == "Running processes in a container (alias of `container top`)"@,
    {
        "Running processes in a container (alias of `container top`)"
    }

    /// The signature of `container top`, renamed.
    pub fn signature(&self) -> (sig: SignatureSpec)
        ensures
            sig.name@ == "nude top"@,
            docker_command(sig),
            sig.required matches Some((n, h)) && n@ == "name"@ && h@
                == "Container name or ID (must be running)"@,
            sig.flags.deep_view() == seq![output_flag(list_output_help())],
    {
        renamed(ContainerTopCommand.signature(), "nude top")
    }

    pub fn completion(&self, arg: &ArgKind) -> (r: CompletionSource)
        ensures
            r == ref_and_output_spec(arg.deep_view(), CompletionSource::ContainerNames),
    {
        ContainerTopCommand.completion(arg)
    }
}

impl DiffCommand {
    pub fn name(&self) -> (r: &'static str)
        ensures
            r@ == "nude diff"@,
    {
        "nude diff"
    }

    pub fn description(&self) -> (r: &'static str)
        ensures
            r@ == "Filesystem changes to a container (alias of `container diff`)"@,
    {
        "Filesystem changes to a container (alias of `container diff`)"
    }

    /// The signature of `container diff`, renamed.
    pub fn signature(&self) -> (sig: SignatureSpec)
        ensures
            sig.name@ == "nude diff"@,
            docker_command(sig),
            sig.required matches Some((n, h)) && n@ == "name"@ && h@ == "Container name or ID"@,
            sig.flags.deep_view() == seq![output_flag(list_output_help())],
    {
        renamed(ContainerDiffCommand.signature(), "nude diff")
    }

    pub fn completion(&self, arg: &ArgKind) -> (r: CompletionSource)
        ensures
            r == ref_and_output_spec(arg.deep_view(), CompletionSource::ContainerNames),
    {
        ContainerDiffCommand.completion(arg)
    }
}

impl HistoryCommand {
    pub fn name(&self) -> (r: &'static str)
        ensures
            r@ == "nude history"@,
    {
        "nude history"
    }

    pub fn description(&self) -> (r: &'static str)
        ensures
            r@ == "Layer history of an image (alias of `image history`)"@,
    {
        "Layer history of an image (alias of `image history`)"
    }

    /// The signature of `image history`, renamed.
    pub fn signature(&self) -> (sig: SignatureSpec)
        ensures
            sig.name@ == "nude history"@,
            docker_command(sig),
            sig.required matches Some((n, h)) && n@ == "name"@ && h@
                == "Image reference (repo:tag) or ID"@,
            sig.flags.deep_view() == seq![output_flag(list_output_help())],
    {
        renamed(ImageHistoryCommand.signature(), "nude history")
    }

    pub fn completion(&self, arg: &ArgKind) -> (r: CompletionSource)
        ensures
            r == ref_and_output_spec(arg.deep_view(), CompletionSource::ImageRefs),
    {
        ImageHistoryCommand.completion(arg)
    }
}

impl InfoCommand {
    pub fn name(&self) -> (r: &'static str)
        ensures
            r@ == "nude info"@,
    {
        "nude info"
    }

    pub fn description(&self) -> (r: &'static str)
        ensures
            r@ == "Daemon-wide info (alias of `system info`)"@,
    {
        "Daemon-wide info (alias of `system info`)"
    }

    /// The signature of `system info`, renamed.
    pub fn signature(&self) -> (sig: SignatureSpec)
        ensures
            sig.name@ == "nude info"@,
            docker_command(sig),
            sig.required is None,
            sig.flags.deep_view() == seq![output_flag(list_output_help())],
    {
        renamed(SystemInfoCommand.signature(), "nude info")
    }

    pub fn completion(&self, arg: &ArgKind) -> (r: CompletionSource)
        ensures
            r == output_completion_spec(arg.deep_view()),
    {
        SystemInfoCommand.completion(arg)
    }
}

} // verus!
