//! What a run decides before and around the per-file operations: the
//! preflight checks, the lines that open a section, the operation that an
//! action name stands for, and the figures of the manifest check.

use vstd::prelude::*;
use vstd::string::*;
use crate::error::DotfilesError;
use crate::manifest::{files_of, tool_names, Distribution, SectionModel};
use crate::operator::Operation;
use crate::paths::FilePaths;
use crate::report::{Report, Severity};
use crate::text::{has_metadata_name, is_metadata_name, lemma_line_end_at, line_end, texts, to_chars};

verus! {

/// The number of lines of a text: every newline ends a line, and what
/// follows the last newline is a line when it is not empty.
pub open spec fn line_count(s: Seq<char>) -> nat
    decreases s.len(),
{
    let k = line_end(s);
    if s.len() == 0 {
        0
    } else if 0 <= k < s.len() {
        1 + line_count(s.skip(k + 1))
    } else {
        1
    }
}

/// The operation that an action name stands for, if any.
pub open spec fn operation_named(name: Seq<char>) -> Option<Operation> {
    if name == "install"@ {
        Some(Operation::Install)
    } else if name == "sync"@ {
        Some(Operation::Sync)
    } else if name == "status"@ {
        Some(Operation::Status)
    } else {
        None
    }
}

/// The header line of an operation.
pub open spec fn header_text(op: Operation) -> Seq<char> {
    match op {
        Operation::Install => "Installing dotfiles..."@,
        Operation::Sync => "Syncing dotfiles..."@,
        Operation::Status => "Checking dotfiles status..."@,
    }
}

/// One step of a run over the manifest.
#[derive(Debug)]
pub enum Step {
    /// A tool is announced and its live directory made sure of.
    Section(String),
    /// The operation is carried out on a file of a tool.
    File(String, String),
}

/// A step, as mathematics.
pub enum StepModel {
    Section(Seq<char>),
    File(Seq<char>, Seq<char>),
}

impl View for Step {
    type V = StepModel;

    open spec fn view(&self) -> StepModel {
        match self {
            Step::Section(tool) => StepModel::Section(tool@),
            Step::File(tool, file) => StepModel::File(tool@, file@),
        }
    }
}

/// The views of a list of steps.
pub open spec fn step_views(steps: Seq<Step>) -> Seq<StepModel> {
    Seq::new(steps.len(), |i: int| steps[i]@)
}

/// The steps for one tool: the tool itself, then its files in declared
/// order.
pub open spec fn section_steps(tool: Seq<char>, files: Seq<Seq<char>>) -> Seq<StepModel> {
    seq![StepModel::Section(tool)] + Seq::new(files.len(), |i: int| StepModel::File(tool, files[i]))
}

/// The steps of a run: for every section of the first `n` that is no
/// metadata section, in manifest order, the steps for that tool.
pub open spec fn steps_upto(m: Seq<SectionModel>, n: int) -> Seq<StepModel>
    decreases n,
{
    if n <= 0 || n > m.len() {
        Seq::empty()
    } else if is_metadata_name(m[n - 1].name) {
        steps_upto(m, n - 1)
    } else {
        steps_upto(m, n - 1) + section_steps(m[n - 1].name, files_of(m, m[n - 1].name))
    }
}

/// The steps of a run over the whole manifest: tools in manifest order,
/// the files of each tool in declared order, nothing interleaved.
pub open spec fn run_steps(m: Seq<SectionModel>) -> Seq<StepModel> {
    steps_upto(m, m.len() as int)
}

/// How a section is opened: the line that announces it and, when its live
/// directory is missing, the warning for the directory that is created.
#[derive(Debug)]
pub struct SectionStart {
    pub info: Report,
    pub creating: Option<Report>,
    pub directory: String,
}

/// The figures that the manifest check prints.
#[derive(Debug)]
pub struct PrecheckSummary {
    pub line_count: usize,
    pub tool_count: usize,
}

/// The operation that an action name stands for; any other name is an
/// invalid command.
pub fn parse_operation(action: &str) -> (r: Result<Operation, DotfilesError>)
    ensures
        match operation_named(action@) {
            Some(op) => r == Ok::<Operation, DotfilesError>(op),
            None => r matches Err(DotfilesError::InvalidCommand(msg)) && msg@
                == "Invalid action: "@ + action@,
        },
{
    let name = action.to_owned();
    if name == "install".to_owned() {
        Ok(Operation::Install)
    } else if name == "sync".to_owned() {
        Ok(Operation::Sync)
    } else if name == "status".to_owned() {
        Ok(Operation::Status)
    } else {
        Err(DotfilesError::InvalidCommand("Invalid action: ".to_owned().concat(action)))
    }
}

/// The header line of an operation.
pub fn operation_header(op: Operation) -> (r: &'static str)
    ensures
        r@ == header_text(op),
{
    match op {
        Operation::Install => "Installing dotfiles...",
        Operation::Sync => "Syncing dotfiles...",
        Operation::Status => "Checking dotfiles status...",
    }
}

/// The preflight check. A missing repository aborts the run, then a
/// missing manifest; a missing live configuration directory is created,
/// with the warning that is returned.
pub fn check_paths(
    paths: &FilePaths,
    repo_exists: bool,
    distribution_exists: bool,
    config_exists: bool,
) -> (r: Result<Option<Report>, DotfilesError>)
    ensures
        !repo_exists ==> (r matches Err(DotfilesError::RepoNotFound(p)) && p@ == paths.repo_dir@),
        repo_exists && !distribution_exists ==> (r matches Err(
            DotfilesError::DistributionNotFound(p),
        ) && p@ == paths.distribution_file@),
        repo_exists && distribution_exists && !config_exists ==> (r matches Ok(Some(warning))
            && warning.says(
            Severity::Warning,
            "Config directory not found, creating: "@,
            paths.config_dir@,
        )),
        repo_exists && distribution_exists && config_exists ==> r matches Ok(None),
{
    if !repo_exists {
        return Err(DotfilesError::RepoNotFound(paths.repo_dir.clone()));
    }
    if !distribution_exists {
        return Err(DotfilesError::DistributionNotFound(paths.distribution_file.clone()));
    }
    if !config_exists {
        return Ok(
            Some(
                Report::line(
                    Severity::Warning,
                    "Config directory not found, creating: ",
                    paths.config_dir.as_str(),
                ),
            ),
        );
    }
    Ok(None)
}

/// The opening of a section: the line that announces the tool, its live
/// directory, and the warning to print when that directory has to be
/// created.
pub fn process_section(paths: &FilePaths, tool: &str, live_dir_exists: bool) -> (r: SectionStart)
    ensures
        r.info.says(Severity::Info, "Processing tool: "@, tool@),
        r.directory@ == paths.spec_config_section_dir(tool@),
        live_dir_exists ==> r.creating is None,
        !live_dir_exists ==> r.creating is Some && r.creating->0.says(
            Severity::Warning,
            "Creating directory: "@,
            paths.spec_config_section_dir(tool@),
        ),
{
    let directory = paths.config_section_dir(tool);
    let creating = if live_dir_exists {
        None
    } else {
        Some(Report::line(Severity::Warning, "Creating directory: ", directory.as_str()))
    };
    SectionStart { info: Report::line(Severity::Info, "Processing tool: ", tool), creating, directory }
}

/// The steps of a run of install, sync or status over a manifest, in the
/// order in which they are carried out.
pub fn plan_run(distribution: &Distribution) -> (r: Vec<Step>)
    ensures
        step_views(r@) == run_steps(distribution@),
{
    let mut out: Vec<Step> = Vec::new();
    let mut i: usize = 0;
    assert(step_views(out@) =~= steps_upto(distribution@, 0));
    while i < distribution.sections.len()
        invariant
            i <= distribution.sections.len(),
            step_views(out@) == steps_upto(distribution@, i as int),
        decreases distribution.sections.len() - i,
    {
        let ghost before = step_views(out@);
        let ghost name = distribution@[i as int].name;
        let tool = &distribution.sections[i].name;
        assert(tool@ == name);
        if !has_metadata_name(tool.as_str()) {
            let files = distribution.files(tool.as_str());
            out.push(Step::Section(tool.clone()));
            assert(step_views(out@) =~= before + seq![StepModel::Section(name)]);
            let mut j: usize = 0;
            while j < files.len()
                invariant
                    j <= files.len(),
                    tool@ == name,
                    step_views(out@) == before + seq![StepModel::Section(name)] + Seq::new(
                        j as nat,
                        |k: int| StepModel::File(name, texts(files@)[k]),
                    ),
                decreases files.len() - j,
            {
                let ghost sofar = step_views(out@);
                out.push(Step::File(tool.clone(), files[j].clone()));
                assert(step_views(out@) =~= sofar.push(
                    StepModel::File(name, texts(files@)[j as int]),
                ));
                assert(step_views(out@) =~= before + seq![StepModel::Section(name)] + Seq::new(
                    (j + 1) as nat,
                    |k: int| StepModel::File(name, texts(files@)[k]),
                ));
                j += 1;
            }
            assert(step_views(out@) =~= before + section_steps(name, texts(files@)));
        }
        i += 1;
    }
    out
}

/// The number of lines of a text.
pub fn count_lines(content: &str) -> (r: usize)
    ensures
        r == line_count(content@),
{
    let chars = to_chars(content);
    let n: usize = chars.len();
    let mut pos: usize = 0;
    let mut count: usize = 0;
    proof {
        assert(content@.skip(0) =~= content@);
    }
    while pos < n
        invariant
            chars@ == content@,
            n == chars.len(),
            pos <= n,
            count <= pos,
            count + line_count(content@.skip(pos as int)) == line_count(content@),
        decreases n - pos,
    {
        let ghost rest = content@.skip(pos as int);
        let mut end: usize = pos;
        while end < n && chars[end] != '\n'
            invariant
                pos <= end <= n == chars.len(),
                forall|j: int| pos <= j < end ==> #[trigger] chars@[j] != '\n',
            decreases n - end,
        {
            end += 1;
        }
        proof {
            assert forall|j: int| 0 <= j < end - pos implies #[trigger] rest[j] != '\n' by {
                assert(rest[j] == chars@[pos + j]);
            }
            lemma_line_end_at(rest, end - pos);
        }
        count += 1;
        if end < n {
            proof {
                assert(rest.skip(end - pos + 1) =~= content@.skip(end + 1));
            }
            pos = end + 1;
        } else {
            proof {
                assert(content@.skip(n as int).len() == 0);
            }
            pos = n;
        }
    }
    count
}

/// The manifest check, once the manifest text was read and handed to the
/// parser: a parse failure is reported with the parser's message, and a
/// manifest that parses gives the number of lines of the text and the
/// number of tools.
pub fn run_precheck(content: &str, parsed: Result<Distribution, String>) -> (r: Result<
    PrecheckSummary,
    DotfilesError,
>)
    ensures
        match parsed {
            Ok(d) => r matches Ok(summary) && summary.line_count == line_count(content@)
                && summary.tool_count == tool_names(d@).len(),
            Err(msg) => r == Err::<PrecheckSummary, DotfilesError>(
                DotfilesError::DistributionParseError(msg),
            ),
        },
{
    match parsed {
        Ok(d) => {
            let tools = d.tools();
            Ok(PrecheckSummary { line_count: count_lines(content), tool_count: tools.len() })
        },
        Err(msg) => Err(DotfilesError::DistributionParseError(msg)),
    }
}

} // verus!
