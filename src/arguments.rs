//! The run's options and the combinations that are refused.
use vstd::prelude::*;
use vstd::string::StringExecFns;

verus! {

/// The options of one run.
#[derive(Clone, Debug)]
pub struct Args {
    pub source_dir: String,
    pub rename_images: bool,
    pub rename_videos: bool,
    pub use_file_name: bool,
    pub use_last_modified: bool,
    pub use_image_properties: bool,
    pub move_files: bool,
    pub update_last_modified: bool,
    /// Also set an image's modification time to its capture time when it is
    /// named by image properties.
    pub change_last_modified: bool,
}

/// Why a combination of options is refused.
#[derive(Clone, Copy, Debug, PartialEq, Eq, Structural)]
pub enum ArgumentProblem {
    /// No action is asked for.
    NoAction,
    /// Videos are renamed, but by neither file name nor last-modified time.
    NoVideoStrategy,
    /// Videos are renamed both by file name and by last-modified time.
    ManyVideoStrategies,
    /// Images are renamed, but by no strategy.
    NoImageStrategy,
    /// Images are renamed by more than one strategy.
    ManyImageStrategies,
}

#[derive(Clone, Debug)]
pub struct InvalidArgumentsError {
    pub problem: ArgumentProblem,
    pub message: String,
}

pub open spec fn count(b: bool) -> int {
    if b {
        1
    } else {
        0
    }
}

pub open spec fn video_strategies(a: Args) -> int {
    count(a.use_last_modified) + count(a.use_file_name)
}

pub open spec fn image_strategies(a: Args) -> int {
    video_strategies(a) + count(a.use_image_properties)
}

/// The first problem with a combination of options, if any.
pub open spec fn problem_of(a: Args) -> Option<ArgumentProblem> {
    if !a.rename_videos && !a.rename_images && !a.move_files && !a.update_last_modified {
        Some(ArgumentProblem::NoAction)
    } else if a.rename_videos && video_strategies(a) == 0 {
        Some(ArgumentProblem::NoVideoStrategy)
    } else if a.rename_videos && video_strategies(a) > 1 {
        Some(ArgumentProblem::ManyVideoStrategies)
    } else if a.rename_images && image_strategies(a) == 0 {
        Some(ArgumentProblem::NoImageStrategy)
    } else if a.rename_images && image_strategies(a) > 1 {
        Some(ArgumentProblem::ManyImageStrategies)
    } else {
        None
    }
}

pub open spec fn message_of(k: ArgumentProblem) -> Seq<char> {
    match k {
        ArgumentProblem::NoAction => "Kindly use at least one argument from below\n\t--rename-videos\n\t--rename-images\n\t--move-files\n\t--update-last-modified\nUse --help for more options"@,
        ArgumentProblem::NoVideoStrategy => "Kindly use --use-last-modified or --use-file-name along with --rename-videos"@,
        ArgumentProblem::ManyVideoStrategies => "Kindly use exactly one from --use-last-modified or --use-file-name along with --rename-videos"@,
        ArgumentProblem::NoImageStrategy => "Kindly use --use-image-properties or --use-last-modified or --use-file-name along with --rename-images"@,
        ArgumentProblem::ManyImageStrategies => "Kindly use exactly one from --use-image-properties or --use-last-modified or --use-file-name along with --rename-images"@,
    }
}

fn error_of(k: ArgumentProblem) -> (r: InvalidArgumentsError)
    ensures
        r.problem == k,
        r.message@ == message_of(k),
{
    let text = match k {
        ArgumentProblem::NoAction => "Kindly use at least one argument from below\n\t--rename-videos\n\t--rename-images\n\t--move-files\n\t--update-last-modified\nUse --help for more options",
        ArgumentProblem::NoVideoStrategy => "Kindly use --use-last-modified or --use-file-name along with --rename-videos",
        ArgumentProblem::ManyVideoStrategies => "Kindly use exactly one from --use-last-modified or --use-file-name along with --rename-videos",
        ArgumentProblem::NoImageStrategy => "Kindly use --use-image-properties or --use-last-modified or --use-file-name along with --rename-images",
        ArgumentProblem::ManyImageStrategies => "Kindly use exactly one from --use-image-properties or --use-last-modified or --use-file-name along with --rename-images",
    };
    InvalidArgumentsError { problem: k, message: String::from_str(text) }
}

/// Checks a combination of options: at least one action, and exactly one
/// naming strategy for each kind of file that is renamed (videos by file
/// name or last-modified time; images also by image properties).
pub fn parse(args: Args) -> (r: Result<Args, InvalidArgumentsError>)
    ensures
        match problem_of(args) {
            None => r matches Ok(a) && a == args,
            Some(k) => r matches Err(e) && e.problem == k && e.message@ == message_of(k),
        },
{
    if !args.rename_videos && !args.rename_images && !args.move_files && !args.update_last_modified {
        return Err(error_of(ArgumentProblem::NoAction));
    }
    let mut count: u32 = 0;
    if args.use_last_modified {
        count = count + 1;
    }
    if args.use_file_name {
        count = count + 1;
    }
    if args.rename_videos && count == 0 {
        return Err(error_of(ArgumentProblem::NoVideoStrategy));
    }
    if args.rename_videos && count > 1 {
        return Err(error_of(ArgumentProblem::ManyVideoStrategies));
    }
    if args.use_image_properties {
        count = count + 1;
    }
    if args.rename_images && count == 0 {
        return Err(error_of(ArgumentProblem::NoImageStrategy));
    }
    if args.rename_images && count > 1 {
        return Err(error_of(ArgumentProblem::ManyImageStrategies));
    }
    Ok(args)
}

/// How files of one kind are named.
#[derive(Clone, Copy, Debug, PartialEq, Eq, Structural)]
pub enum NamingStrategy {
    ByFileNamePattern,
    ByLastModified,
    ByImageProperties,
}

/// The strategy for images: image properties, else last-modified time,
/// else the file name.
pub fn image_strategy(args: &Args) -> (r: Option<NamingStrategy>)
    ensures
        r == (if args.use_image_properties {
            Some(NamingStrategy::ByImageProperties)
        } else if args.use_last_modified {
            Some(NamingStrategy::ByLastModified)
        } else if args.use_file_name {
            Some(NamingStrategy::ByFileNamePattern)
        } else {
            None
        }),
{
    if args.use_image_properties {
        Some(NamingStrategy::ByImageProperties)
    } else if args.use_last_modified {
        Some(NamingStrategy::ByLastModified)
    } else if args.use_file_name {
        Some(NamingStrategy::ByFileNamePattern)
    } else {
        None
    }
}

/// The strategy for videos: last-modified time, else the file name.
pub fn video_strategy(args: &Args) -> (r: Option<NamingStrategy>)
    ensures
        r == (if args.use_last_modified {
            Some(NamingStrategy::ByLastModified)
        } else if args.use_file_name {
            Some(NamingStrategy::ByFileNamePattern)
        } else {
            None
        }),
{
    if args.use_last_modified {
        Some(NamingStrategy::ByLastModified)
    } else if args.use_file_name {
        Some(NamingStrategy::ByFileNamePattern)
    } else {
        None
    }
}

/// Once the options pass, each kind that is renamed has one strategy.
pub proof fn lemma_valid_options_pick_one_strategy(a: Args)
    requires
        problem_of(a) is None,
    ensures
        a.rename_videos ==> video_strategies(a) == 1,
        a.rename_images ==> image_strategies(a) == 1,
{
}

} // verus!
