use vstd::prelude::*;
use vstd::string::*;

verus! {

/// The oldest interpreter version a virtual environment is made with.
pub const MINIMUM_PYTHON: &'static str = "Python 3.6";

/// The words of a shell-quoted string, `None` where its quoting is broken.
pub uninterp spec fn shell_words(s: Seq<char>) -> Option<Seq<Seq<char>>>;

/// Whether version string `a` is at least `b`, an error where either cannot
/// be read as a version.
pub uninterp spec fn version_at_least(a: Seq<char>, b: Seq<char>) -> Result<bool, ()>;

/// Relies on shlex::split: POSIX shell word splitting, depending on the text alone.
#[verifier::external_body]
fn split_words(s: &str) -> (r: Option<Vec<String>>)
    ensures
        r.deep_view() == shell_words(s@),
{
    shlex::split(s)
}

/// Relies on version_compare::compare_to with `Cmp::Ge`: depends on the two
/// strings alone.
#[verifier::external_body]
fn compare_at_least(a: &str, b: &str) -> (r: Result<bool, ()>)
    ensures
        r == version_at_least(a@, b@),
{
    version_compare::compare_to(a, b, version_compare::Cmp::Ge)
}

/// The arguments of `open` for a file and/or an application; `None` where
/// neither is given.
pub open spec fn open_arguments_of(file: Option<Seq<char>>, app: Option<Seq<char>>) -> Option<
    Seq<Seq<char>>,
> {
    match (file, app) {
        (Some(f), Some(a)) => Some(seq![f, "-a"@, a]),
        (Some(f), None) => Some(seq![f]),
        (None, Some(a)) => Some(seq!["-a"@, a]),
        (None, None) => None,
    }
}

/// Builds the arguments of `open` for a file, an application, or a file in an
/// application.
pub fn open_arguments(file: Option<String>, app_name: Option<String>) -> (r: Option<Vec<String>>)
    ensures
        r.deep_view() == open_arguments_of(file.deep_view(), app_name.deep_view()),
{
    match (file, app_name) {
        (Some(f), Some(a)) => {
            let mut r: Vec<String> = Vec::new();
            r.push(f);
            r.push(String::from_str("-a"));
            r.push(a);
            proof {
                assert(r.deep_view() =~= open_arguments_of(
                    file.deep_view(),
                    app_name.deep_view(),
                )->Some_0);
            }
            Some(r)
        },
        (Some(f), None) => {
            let mut r: Vec<String> = Vec::new();
            r.push(f);
            proof {
                assert(r.deep_view() =~= open_arguments_of(
                    file.deep_view(),
                    app_name.deep_view(),
                )->Some_0);
            }
            Some(r)
        },
        (None, Some(a)) => {
            let mut r: Vec<String> = Vec::new();
            r.push(String::from_str("-a"));
            r.push(a);
            proof {
                assert(r.deep_view() =~= open_arguments_of(
                    file.deep_view(),
                    app_name.deep_view(),
                )->Some_0);
            }
            Some(r)
        },
        (None, None) => None,
    }
}

/// The interpreter arguments that run `code`.
pub fn run_arguments(code: String) -> (r: Vec<String>)
    ensures
        r.deep_view() == seq!["-c"@, code@],
{
    let mut r: Vec<String> = Vec::new();
    r.push(String::from_str("-c"));
    r.push(code);
    proof {
        assert(r.deep_view() =~= seq!["-c"@, code@]);
    }
    r
}

/// The interpreter arguments that create a virtual environment at `path`.
pub fn venv_arguments(path: String) -> (r: Vec<String>)
    ensures
        r.deep_view() == seq!["-m"@, "venv"@, path@],
{
    let mut r: Vec<String> = Vec::new();
    r.push(String::from_str("-m"));
    r.push(String::from_str("venv"));
    r.push(path);
    proof {
        assert(r.deep_view() =~= seq!["-m"@, "venv"@, path@]);
    }
    r
}

/// The interpreter arguments that run pip, quietly, with `words`.
pub fn pip_command_arguments(words: Vec<String>) -> (r: Vec<String>)
    ensures
        r.deep_view() == seq!["-m"@, "pip"@] + words.deep_view() + seq!["-qq"@],
{
    let mut r: Vec<String> = Vec::new();
    r.push(String::from_str("-m"));
    r.push(String::from_str("pip"));
    let mut i: usize = 0;
    while i < words.len()
        invariant
            i <= words.len(),
            r.deep_view() == seq!["-m"@, "pip"@] + words.deep_view().subrange(0, i as int),
        decreases words.len() - i,
    {
        let ghost prev = r.deep_view();
        let w = words[i].clone();
        r.push(w);
        proof {
            assert(r.deep_view() =~= prev.push(w@));
            assert(words.deep_view().subrange(0, i + 1) =~= words.deep_view().subrange(
                0,
                i as int,
            ).push(words[i as int]@));
        }
        i += 1;
    }
    r.push(String::from_str("-qq"));
    proof {
        assert(words.deep_view().subrange(0, words.len() as int) =~= words.deep_view());
        assert(r.deep_view() =~= seq!["-m"@, "pip"@] + words.deep_view() + seq!["-qq"@]);
    }
    r
}

/// The interpreter arguments that run pip with the shell-quoted
/// `args_string`; `None` where its quoting is broken.
pub fn pip_arguments(args_string: &str) -> (r: Option<Vec<String>>)
    ensures
        r.deep_view() == match shell_words(args_string@) {
            Some(w) => Some(seq!["-m"@, "pip"@] + w + seq!["-qq"@]),
            None => None,
        },
{
    match split_words(args_string) {
        Some(words) => Some(pip_command_arguments(words)),
        None => None,
    }
}

/// What a version comparison means for making a virtual environment.
pub open spec fn version_verdict(cmp: Result<bool, ()>, r: Result<(), String>) -> bool {
    match cmp {
        Ok(true) => r is Ok,
        Ok(false) => r matches Err(m) && m@ == "Python 3.6 or higher is required"@,
        Err(_) => r matches Err(m) && m@ == "Error ensuring Python version"@,
    }
}

/// Accepts an interpreter whose version compared at least the minimum.
pub fn python_version_verdict(cmp: Result<bool, ()>) -> (r: Result<(), String>)
    ensures
        version_verdict(cmp, r),
{
    match cmp {
        Ok(true) => Ok(()),
        Ok(false) => Err(String::from_str("Python 3.6 or higher is required")),
        Err(_) => Err(String::from_str("Error ensuring Python version")),
    }
}

/// Checks the interpreter's reported version (`python -V`) against the minimum.
pub fn check_python_version(version_output: &str) -> (r: Result<(), String>)
    ensures
        version_verdict(version_at_least(version_output@, MINIMUM_PYTHON@), r),
{
    python_version_verdict(compare_at_least(version_output, MINIMUM_PYTHON))
}

} // verus!
