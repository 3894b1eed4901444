use vstd::prelude::*;
use vstd::string::StringExecFns;
use crate::path::{
    extension, extension_spec, file_name, file_name_spec, names_file, output_path,
    output_path_spec,
};

verus! {

/// A change notification for the watched directory.
#[derive(Debug, Clone, PartialEq, Eq)]
pub enum WatchEvent {
    /// The file at this path was written to.
    Write(String),
    /// The notification source failed to deliver an event; the text says why.
    Error(String),
    /// Any other change (creation, removal, rename, ...), which is not acted upon.
    Other,
}

/// Why the watch session ends on a written file.
#[derive(Debug, Clone, Copy, PartialEq, Eq, Structural)]
pub enum WatchError {
    /// The path has no file name (it is empty, `/`, `.`, or ends in `..`).
    NoFileName,
    /// The file name has no extension.
    MissingExtension,
    /// The file name has an extension other than `md` and `html`.
    UnsupportedExtension,
}

impl WatchError {
    /// The diagnostic line for this error.
    pub fn message(&self) -> (r: String)
        ensures
            r@ == match self {
                WatchError::NoFileName => "ERROR: Not found file name."@,
                WatchError::MissingExtension => "ERROR: Not found extension."@,
                WatchError::UnsupportedExtension => "ERROR: Only markdown files can be converted."@,
            },
    {
        let r = match self {
            WatchError::NoFileName => String::from_str("ERROR: Not found file name."),
            WatchError::MissingExtension => String::from_str("ERROR: Not found extension."),
            WatchError::UnsupportedExtension => String::from_str(
                "ERROR: Only markdown files can be converted.",
            ),
        };
        r
    }
}

/// One Markdown file to convert, and the HTML file to write.
#[derive(Debug, Clone, PartialEq, Eq)]
pub struct ConversionRequest {
    pub input: String,
    pub output: String,
}

/// What the driver of a session does next.
#[derive(Debug, Clone, PartialEq, Eq)]
pub enum Action {
    /// Nothing; wait for the next event.
    Ignore,
    /// Convert the input file and write the output file.
    Convert(ConversionRequest),
    /// Report a delivery failure on the diagnostic stream and go on.
    Log(String),
    /// Report the error and end the session.
    Fail(WatchError),
}

/// The two states of a watch session.
#[derive(Debug, Clone, Copy, PartialEq, Eq, Structural)]
pub enum LoopState {
    Idle,
    Terminated,
}

/// The extension of files that are converted.
pub open spec fn markdown_ext() -> Seq<char> {
    seq!['m', 'd']
}

/// The extension of files that are passed over.
pub open spec fn html_ext() -> Seq<char> {
    seq!['h', 't', 'm', 'l']
}

/// `a` is what is done about a write to `path` while output goes to `dir`.
pub open spec fn write_action(dir: Seq<char>, path: Seq<char>, a: Action) -> bool {
    let name = file_name_spec(path);
    let ext = extension_spec(name);
    match a {
        Action::Convert(req) => {
            &&& names_file(path)
            &&& ext == Some(markdown_ext())
            &&& req.input@ == path
            &&& req.output@ == output_path_spec(dir, name)
        },
        Action::Ignore => names_file(path) && ext == Some(html_ext()),
        Action::Fail(WatchError::NoFileName) => !names_file(path),
        Action::Fail(WatchError::MissingExtension) => names_file(path) && ext is None,
        Action::Fail(WatchError::UnsupportedExtension) => {
            &&& names_file(path)
            &&& ext is Some
            &&& ext != Some(markdown_ext())
            &&& ext != Some(html_ext())
        },
        Action::Log(_) => false,
    }
}

/// A write leads to a conversion exactly when the written file's extension is
/// `md`, and the HTML then always goes to `{dir}/{stem}.html`.
pub proof fn lemma_converts_exactly_markdown(dir: Seq<char>, path: Seq<char>, a: Action)
    requires
        write_action(dir, path, a),
    ensures
        (a is Convert) <==> (names_file(path) && extension_spec(file_name_spec(path)) == Some(
            markdown_ext(),
        )),
        a matches Action::Convert(req) ==> req.output@ == output_path_spec(
            dir,
            file_name_spec(path),
        ),
{
}

/// `a` is what an idle session writing to `dir` does on `event`.
pub open spec fn idle_action(dir: Seq<char>, event: WatchEvent, a: Action) -> bool {
    match event {
        WatchEvent::Write(p) => write_action(dir, p@, a),
        WatchEvent::Error(m) => a matches Action::Log(l) && l@ == m@,
        WatchEvent::Other => a is Ignore,
    }
}

/// The state a session is in after doing `a` in state `s`.
pub open spec fn next_state(s: LoopState, a: Action) -> LoopState {
    if a is Fail {
        LoopState::Terminated
    } else {
        s
    }
}

/// Decides, one event at a time, what a watcher of a directory does: convert
/// written Markdown files into HTML files in the output directory, pass over
/// HTML files, and end the session on any other written file.
pub struct WatchSession {
    output_dir: String,
    state: LoopState,
}

/// Compares a string with a literal's characters.
fn equals_literal(s: &String, lit: &str) -> (r: bool)
    ensures
        r == (s@ == lit@),
{
    let l = String::from_str(lit);
    *s == l
}

impl WatchSession {
    /// The directory that HTML files go to.
    pub closed spec fn output_dir_spec(&self) -> Seq<char> {
        self.output_dir@
    }

    /// The state the session is in.
    pub closed spec fn state_spec(&self) -> LoopState {
        self.state
    }

    /// An idle session that writes HTML files into `output_dir`.
    pub fn new(output_dir: &str) -> (r: Self)
        ensures
            r.output_dir_spec() == output_dir@,
            r.state_spec() == LoopState::Idle,
    {
        WatchSession { output_dir: String::from_str(output_dir), state: LoopState::Idle }
    }

    /// The state the session is in.
    pub fn state(&self) -> (r: LoopState)
        ensures
            r == self.state_spec(),
    {
        self.state
    }

    /// The directory that HTML files go to.
    pub fn output_dir(&self) -> (r: &str)
        ensures
            r@ == self.output_dir_spec(),
    {
        self.output_dir.as_str()
    }

    /// What to do about a write to `path`.
    fn on_write(&self, path: &String) -> (r: Action)
        ensures
            write_action(self.output_dir@, path@, r),
    {
        let name = match file_name(path.as_str()) {
            None => {
                return Action::Fail(WatchError::NoFileName);
            },
            Some(n) => n,
        };
        let ext = match extension(name.as_str()) {
            None => {
                return Action::Fail(WatchError::MissingExtension);
            },
            Some(e) => e,
        };
        proof {
            reveal_strlit("md");
            reveal_strlit("html");
            assert("md"@ =~= markdown_ext());
            assert("html"@ =~= html_ext());
        }
        if equals_literal(&ext, "md") {
            let output = output_path(self.output_dir.as_str(), name.as_str());
            Action::Convert(ConversionRequest { input: path.clone(), output })
        } else if equals_literal(&ext, "html") {
            Action::Ignore
        } else {
            Action::Fail(WatchError::UnsupportedExtension)
        }
    }

    /// Takes the next event. An idle session answers it as `idle_action` says
    /// and ends on a `Fail`; an ended session ignores every event.
    pub fn handle(&mut self, event: &WatchEvent) -> (r: Action)
        ensures
            old(self).state_spec() == LoopState::Terminated ==> r is Ignore,
            old(self).state_spec() == LoopState::Idle ==> idle_action(
                old(self).output_dir_spec(),
                *event,
                r,
            ),
            final(self).state_spec() == next_state(old(self).state_spec(), r),
            final(self).output_dir_spec() == old(self).output_dir_spec(),
    {
        if self.state == LoopState::Terminated {
            return Action::Ignore;
        }
        let r = match event {
            WatchEvent::Write(p) => self.on_write(p),
            WatchEvent::Error(m) => Action::Log(m.clone()),
            WatchEvent::Other => Action::Ignore,
        };
        if let Action::Fail(_) = r {
            self.state = LoopState::Terminated;
        }
        r
    }
}

} // verus!
