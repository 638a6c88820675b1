use vstd::prelude::*;
use crate::config::Config;
use crate::paths::{expand_home_symbol, expand_tilde, home_or_root, join_path, joined, opt_view};

verus! {

/// Why the devkit cannot be set up.
#[derive(Debug, Clone, Copy, PartialEq, Eq, Structural)]
pub enum SetupError {
    /// The operating system and architecture pair has no release.
    UnsupportedPlatform,
    /// The install path has no parent directory to download into.
    NoParentDirectory,
}

/// One step of the installation, carried out in order by the caller; the
/// first step that fails ends the setup.
#[derive(Debug)]
pub enum SetupAction {
    /// Create a directory and its missing parents.
    CreateDirAll(String),
    /// Fetch `url` into the file `destination`.
    Download { url: String, destination: String },
    /// Unpack the archive at `archive` into the directory `destination`.
    Extract { archive: String, destination: String },
    /// Delete a file; failing to do so is an error.
    RemoveFile(String),
    /// Append `text` to the existing file at `path`.
    AppendToFile { path: String, text: String },
    /// Add the execute bits to a file's permissions.
    MakeExecutable(String),
    /// Run `program` in `dir` with `args` and wait for it; a non-zero exit
    /// status is reported and tolerated.
    Run { program: String, dir: String, args: Vec<String> },
}

/// A setup step in terms of the text it carries.
pub enum Step {
    CreateDirAll(Seq<char>),
    Download(Seq<char>, Seq<char>),
    Extract(Seq<char>, Seq<char>),
    RemoveFile(Seq<char>),
    AppendToFile(Seq<char>, Seq<char>),
    MakeExecutable(Seq<char>),
    Run(Seq<char>, Seq<char>, Seq<Seq<char>>),
}

impl View for SetupAction {
    type V = Step;

    open spec fn view(&self) -> Step {
        match self {
            SetupAction::CreateDirAll(p) => Step::CreateDirAll(p@),
            SetupAction::Download { url, destination } => Step::Download(url@, destination@),
            SetupAction::Extract { archive, destination } => Step::Extract(
                archive@,
                destination@,
            ),
            SetupAction::RemoveFile(p) => Step::RemoveFile(p@),
            SetupAction::AppendToFile { path, text } => Step::AppendToFile(path@, text@),
            SetupAction::MakeExecutable(p) => Step::MakeExecutable(p@),
            SetupAction::Run { program, dir, args } => Step::Run(
                program@,
                dir@,
                args@.map_values(|a: String| a@),
            ),
        }
    }
}

pub open spec fn steps_of(v: Seq<SetupAction>) -> Seq<Step> {
    v.map_values(|a: SetupAction| a@)
}

/// `arch` names an x86 family processor: it holds `x86`.
pub open spec fn is_x86(arch: Seq<char>) -> bool {
    exists|i: int|
        0 <= i && i + 3 <= arch.len() && #[trigger] arch[i] == 'x' && arch[i + 1] == '8' && arch[i
            + 2] == '6'
}

/// The two platforms that releases are published for.
pub open spec fn supported_platform(os: Seq<char>, arch: Seq<char>) -> bool {
    (os == "linux"@ && is_x86(arch)) || (os == "macos"@ && arch == "aarch64"@)
}

/// The platform part of a release archive's name.
pub open spec fn platform_tag(os: Seq<char>) -> Seq<char> {
    if os == "linux"@ {
        "linux-X64"@
    } else {
        "macos-ARM64"@
    }
}

/// The download location of a release for a platform.
pub open spec fn release_url_of(version: Seq<char>, os: Seq<char>) -> Seq<char> {
    "https://github.com/bloxbean/yaci-devkit/releases/download/v"@ + version + "/yaci-cli-"@
        + version + "-"@ + platform_tag(os) + ".zip"@
}

/// The devkit's command-line executable inside its install directory.
pub open spec fn executable_of(toolkit: Seq<char>) -> Seq<char> {
    joined(toolkit, "yaci-cli"@)
}

/// The line that tells the installed devkit where the services live.
pub open spec fn services_line_of(services: Seq<char>) -> Seq<char> {
    "\nyaci.cli.home="@ + services + "\n"@
}

/// The steps that let the installed devkit fetch its own services.
pub open spec fn service_steps(toolkit: Seq<char>) -> Seq<Step> {
    seq![
        Step::MakeExecutable(executable_of(toolkit)),
        Step::Run(executable_of(toolkit), toolkit, seq!["download"@]),
    ]
}

/// The steps that install a release into `toolkit`, with `parent` as the
/// directory that holds it.
pub open spec fn install_steps(
    toolkit: Seq<char>,
    parent: Seq<char>,
    services: Seq<char>,
    version: Seq<char>,
    os: Seq<char>,
) -> Seq<Step> {
    let archive = joined(parent, "yaci-devkit.zip"@);
    seq![
        Step::CreateDirAll(parent),
        Step::CreateDirAll(services),
        Step::Download(release_url_of(version, os), archive),
        Step::Extract(archive, toolkit),
        Step::RemoveFile(archive),
        Step::AppendToFile(joined(toolkit, "config/download.properties"@), services_line_of(services)),
    ]
}

/// Relies on std::path::Path::parent: the result depends on the path alone.
pub uninterp spec fn parent_of(p: Seq<char>) -> Option<Seq<char>>;

/// Relies on std::path::Path::parent for the directory that holds a path.
#[verifier::external_body]
fn parent_dir(p: &str) -> (r: Option<String>)
    ensures
        match r {
            Some(q) => parent_of(p@) == Some(q@),
            None => parent_of(p@) is None,
        },
{
    std::path::Path::new(p).parent().map(|q| q.to_string_lossy().into_owned())
}

fn text_is(a: &str, b: &str) -> (r: bool)
    ensures
        r == (a@ == b@),
{
    String::from_str(a) == String::from_str(b)
}

/// Whether the architecture name holds `x86`.
pub fn arch_is_x86(arch: &str) -> (r: bool)
    ensures
        r == is_x86(arch@),
{
    let n = arch.unicode_len();
    let mut i: usize = 0;
    while n >= 3 && i <= n - 3
        invariant
            n == arch@.len(),
            i <= n,
            forall|j: int|
                0 <= j < i ==> !(j + 3 <= arch@.len() && #[trigger] arch@[j] == 'x' && arch@[j
                    + 1] == '8' && arch@[j + 2] == '6'),
        decreases n - i,
    {
        if arch.get_char(i) == 'x' && arch.get_char(i + 1) == '8' && arch.get_char(i + 2) == '6' {
            return true;
        }
        i = i + 1;
    }
    false
}

/// Whether releases exist for the operating system and architecture.
pub fn platform_supported(os: &str, arch: &str) -> (r: bool)
    ensures
        r == supported_platform(os@, arch@),
{
    (text_is(os, "linux") && arch_is_x86(arch)) || (text_is(os, "macos") && text_is(
        arch,
        "aarch64",
    ))
}

/// The download location of release `version` for a supported platform.
pub fn release_url(version: &str, os: &str, arch: &str) -> (r: Result<String, SetupError>)
    ensures
        supported_platform(os@, arch@) ==> r is Ok && r->Ok_0@ == release_url_of(version@, os@),
        !supported_platform(os@, arch@) ==> r == Err::<String, SetupError>(
            SetupError::UnsupportedPlatform,
        ),
{
    if !platform_supported(os, arch) {
        return Err(SetupError::UnsupportedPlatform);
    }
    let mut url = String::from_str("https://github.com/bloxbean/yaci-devkit/releases/download/v");
    url.append(version);
    url.append("/yaci-cli-");
    url.append(version);
    url.append("-");
    if text_is(os, "linux") {
        url.append("linux-X64");
    } else {
        url.append("macos-ARM64");
    }
    url.append(".zip");
    Ok(url)
}

/// Make the devkit's executable runnable and let it download its services.
pub fn download_services(yaci_devkit_path: &str) -> (r: Vec<SetupAction>)
    ensures
        steps_of(r@) == service_steps(yaci_devkit_path@),
{
    let exe = join_path(yaci_devkit_path, "yaci-cli");
    let mut args: Vec<String> = Vec::new();
    args.push(String::from_str("download"));
    let mut r: Vec<SetupAction> = Vec::new();
    r.push(SetupAction::MakeExecutable(exe.clone()));
    r.push(
        SetupAction::Run {
            program: exe,
            dir: String::from_str(yaci_devkit_path),
            args,
        },
    );
    proof {
        assert(args@.map_values(|a: String| a@) =~= seq!["download"@]);
    }
    assert(steps_of(r@) =~= service_steps(yaci_devkit_path@));
    r
}

/// The steps that download release `version` of the devkit into
/// `yaci_devkit_path`, unpack it, and point it at `services_path`.
pub fn download_and_configure_yaci_devkit(
    yaci_devkit_path: &str,
    services_path: &str,
    yaci_devkit_version: &str,
    os: &str,
    arch: &str,
) -> (r: Result<Vec<SetupAction>, SetupError>)
    ensures
        !supported_platform(os@, arch@) ==> r == Err::<Vec<SetupAction>, SetupError>(
            SetupError::UnsupportedPlatform,
        ),
        supported_platform(os@, arch@) && parent_of(yaci_devkit_path@) is None ==> r == Err::<
            Vec<SetupAction>,
            SetupError,
        >(SetupError::NoParentDirectory),
        supported_platform(os@, arch@) && parent_of(yaci_devkit_path@) is Some ==> r is Ok
            && steps_of(r->Ok_0@) == install_steps(
            yaci_devkit_path@,
            parent_of(yaci_devkit_path@)->0,
            services_path@,
            yaci_devkit_version@,
            os@,
        ),
{
    let url = match release_url(yaci_devkit_version, os, arch) {
        Ok(u) => u,
        Err(e) => return Err(e),
    };
    let parent = match parent_dir(yaci_devkit_path) {
        Some(p) => p,
        None => return Err(SetupError::NoParentDirectory),
    };
    let archive = join_path(parent.as_str(), "yaci-devkit.zip");
    let mut line = String::from_str("\nyaci.cli.home=");
    line.append(services_path);
    line.append("\n");
    let mut r: Vec<SetupAction> = Vec::new();
    r.push(SetupAction::CreateDirAll(parent.clone()));
    r.push(SetupAction::CreateDirAll(String::from_str(services_path)));
    r.push(SetupAction::Download { url, destination: archive.clone() });
    r.push(
        SetupAction::Extract {
            archive: archive.clone(),
            destination: String::from_str(yaci_devkit_path),
        },
    );
    r.push(SetupAction::RemoveFile(archive));
    r.push(
        SetupAction::AppendToFile {
            path: join_path(yaci_devkit_path, "config/download.properties"),
            text: line,
        },
    );
    assert(steps_of(r@) =~= install_steps(
        yaci_devkit_path@,
        parent@,
        services_path@,
        yaci_devkit_version@,
        os@,
    ));
    Ok(r)
}

/// The install and services paths of a configuration with `~` expanded.
pub open spec fn resolved_paths(config: Config, home: Option<Seq<char>>) -> (Seq<char>, Seq<char>) {
    (
        expand_tilde(config.yaci_devkit.path@, home_or_root(home)),
        expand_tilde(config.yaci_devkit.services_path@, home_or_root(home)),
    )
}

/// The full setup plan when the install directory is missing.
pub open spec fn setup_steps(
    toolkit: Seq<char>,
    services: Seq<char>,
    version: Seq<char>,
    os: Seq<char>,
) -> Seq<Step> {
    install_steps(toolkit, parent_of(toolkit)->0, services, version, os) + service_steps(toolkit)
}

/// The setup plan as a whole: nothing when the install directory exists,
/// else the full installation, or the reason it cannot be planned.
pub open spec fn setup_plan(
    config: Config,
    home: Option<Seq<char>>,
    installed: bool,
    os: Seq<char>,
    arch: Seq<char>,
) -> Result<Seq<Step>, SetupError> {
    let (toolkit, services) = resolved_paths(config, home);
    if installed {
        Ok(Seq::empty())
    } else if !supported_platform(os, arch) {
        Err(SetupError::UnsupportedPlatform)
    } else if parent_of(toolkit) is None {
        Err(SetupError::NoParentDirectory)
    } else {
        Ok(setup_steps(toolkit, services, config.yaci_devkit.version@, os))
    }
}

/// Whether a plan fetches anything from the network or unpacks an archive.
pub open spec fn fetches_or_extracts(steps: Seq<Step>) -> bool {
    exists|i: int|
        0 <= i < steps.len() && (#[trigger] steps[i] is Download || steps[i] is Extract)
}

/// Whether a step unpacks an archive into `dir`.
pub open spec fn extracts_into(s: Step, dir: Seq<char>) -> bool {
    s matches Step::Extract(_, d) && d == dir
}

/// Setting up twice: a successful first plan unpacks the release into the
/// install directory, and once that directory exists a second plan neither
/// downloads nor extracts anything.
pub proof fn lemma_setup_idempotent(
    config: Config,
    home: Option<Seq<char>>,
    os: Seq<char>,
    arch: Seq<char>,
    first: Seq<Step>,
)
    requires
        setup_plan(config, home, false, os, arch) == Ok::<Seq<Step>, SetupError>(first),
    ensures
        exists|i: int|
            0 <= i < first.len() && extracts_into(#[trigger] first[i], resolved_paths(config, home).0),
        setup_plan(config, home, true, os, arch) == Ok::<Seq<Step>, SetupError>(Seq::empty()),
        !fetches_or_extracts(Seq::<Step>::empty()),
{
    let t = resolved_paths(config, home).0;
    assert(extracts_into(first[3], t));
}

/// On a platform without releases, setup fails with `UnsupportedPlatform`
/// and plans no step at all, so nothing is fetched.
pub proof fn lemma_platform_gate(
    config: Config,
    home: Option<Seq<char>>,
    installed: bool,
    os: Seq<char>,
    arch: Seq<char>,
)
    requires
        !supported_platform(os, arch),
        !installed,
    ensures
        setup_plan(config, home, installed, os, arch) == Err::<Seq<Step>, SetupError>(
            SetupError::UnsupportedPlatform,
        ),
{
}

/// The install directory of a configuration, with `~` replaced by `home` (or
/// `/root`); the caller tests whether it exists before planning the setup.
pub fn install_dir(config: &Config, home: Option<&str>) -> (r: String)
    ensures
        r@ == resolved_paths(*config, opt_view(home)).0,
{
    expand_home_symbol(config.yaci_devkit.path.as_str(), home)
}

/// Plans the setup. When the install directory (with `~` expanded) already
/// exists, as `installed` tells, nothing is to be done; otherwise the devkit is
/// downloaded, unpacked and configured, and its services are fetched.
/// Unsupported platforms are refused before any step.
pub fn check_setup(
    config: &Config,
    home: Option<&str>,
    installed: bool,
    os: &str,
    arch: &str,
) -> (r: Result<Vec<SetupAction>, SetupError>)
    ensures
        installed ==> r is Ok && r->Ok_0@.len() == 0,
        !installed && !supported_platform(os@, arch@) ==> r == Err::<
            Vec<SetupAction>,
            SetupError,
        >(SetupError::UnsupportedPlatform),
        !installed && supported_platform(os@, arch@) && parent_of(
            resolved_paths(*config, opt_view(home)).0,
        ) is None ==> r == Err::<Vec<SetupAction>, SetupError>(SetupError::NoParentDirectory),
        !installed && supported_platform(os@, arch@) && parent_of(
            resolved_paths(*config, opt_view(home)).0,
        ) is Some ==> r is Ok && steps_of(r->Ok_0@) == setup_steps(
            resolved_paths(*config, opt_view(home)).0,
            resolved_paths(*config, opt_view(home)).1,
            config.yaci_devkit.version@,
            os@,
        ),
        match r {
            Ok(v) => setup_plan(*config, opt_view(home), installed, os@, arch@) == Ok::<
                Seq<Step>,
                SetupError,
            >(steps_of(v@)),
            Err(e) => setup_plan(*config, opt_view(home), installed, os@, arch@) == Err::<
                Seq<Step>,
                SetupError,
            >(e),
        },
{
    if installed {
        assert(steps_of(Seq::<SetupAction>::empty()) =~= Seq::<Step>::empty());
        return Ok(Vec::new());
    }
    let toolkit = expand_home_symbol(config.yaci_devkit.path.as_str(), home);
    let services = expand_home_symbol(config.yaci_devkit.services_path.as_str(), home);
    let mut plan = match download_and_configure_yaci_devkit(
        toolkit.as_str(),
        services.as_str(),
        config.yaci_devkit.version.as_str(),
        os,
        arch,
    ) {
        Ok(p) => p,
        Err(e) => return Err(e),
    };
    let mut more = download_services(toolkit.as_str());
    let ghost first = plan@;
    let ghost second = more@;
    plan.append(&mut more);
    assert(steps_of(plan@) =~= steps_of(first) + steps_of(second));
    Ok(plan)
}

} // verus!
