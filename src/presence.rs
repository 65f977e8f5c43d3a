//! Composing the presence payload from what was observed of Xcode.
use vstd::prelude::*;
use vstd::string::*;
use crate::text::{
    chars_of, last_occurrence, last_occurrence_exec, lemma_last_occurrence_found, occurs_at, same_text,
};

verus! {

/// Whether the payload may name the file and the project.
#[derive(Clone, Copy, Debug, PartialEq, Eq)]
pub struct DisplayOptions {
    pub show_file: bool,
    pub show_project: bool,
}

/// What one poll saw of Xcode. An empty `project` means that no workspace is
/// open; `file` is the name of the file in the front window.
pub struct ApplicationState {
    pub running: bool,
    pub project: String,
    pub file: String,
}

/// The status shown on the presence platform.
pub struct ActivityPayload {
    pub details: String,
    pub state: String,
    pub large_icon_key: String,
    pub large_icon_label: String,
    pub started_at: i64,
}

/// A payload's texts as character sequences.
pub struct PayloadView {
    pub details: Seq<char>,
    pub state: Seq<char>,
    pub large_icon_key: Seq<char>,
    pub large_icon_label: Seq<char>,
    pub started_at: i64,
}

impl View for ActivityPayload {
    type V = PayloadView;

    open spec fn view(&self) -> PayloadView {
        PayloadView {
            details: self.details@,
            state: self.state@,
            large_icon_key: self.large_icon_key@,
            large_icon_label: self.large_icon_label@,
            started_at: self.started_at,
        }
    }
}

/// What follows the last `.` of a file name; empty where there is no `.`.
pub open spec fn extension_of(file: Seq<char>) -> Seq<char> {
    match last_occurrence(file, seq!['.']) {
        Some(i) => file.skip(i + 1),
        None => Seq::empty(),
    }
}

/// The extensions that have an icon of their own.
pub open spec fn is_known_extension(ext: Seq<char>) -> bool {
    ||| ext == "swift"@
    ||| ext == "cpp"@
    ||| ext == "cp"@
    ||| ext == "cxx"@
    ||| ext == "c"@
    ||| ext == "rb"@
    ||| ext == "java"@
    ||| ext == "json"@
    ||| ext == "metal"@
}

/// The icon's label and key for an extension, Xcode's own for any other.
pub open spec fn icon_for(ext: Seq<char>) -> (Seq<char>, Seq<char>) {
    if ext == "swift"@ {
        ("Swift"@, "swift"@)
    } else if ext == "cpp"@ || ext == "cp"@ || ext == "cxx"@ {
        ("C++"@, "cpp"@)
    } else if ext == "c"@ {
        ("C"@, "c"@)
    } else if ext == "rb"@ {
        ("Ruby"@, "ruby"@)
    } else if ext == "java"@ {
        ("Java"@, "java"@)
    } else if ext == "json"@ {
        ("JSON"@, "json"@)
    } else if ext == "metal"@ {
        ("Metal"@, "metal"@)
    } else {
        fallback_icon()
    }
}

/// Xcode's own icon, shown when idle and for unknown extensions.
pub open spec fn fallback_icon() -> (Seq<char>, Seq<char>) {
    ("Xcode"@, "xcode"@)
}

/// The payload for a project and file, anchored at `started_at`.
pub open spec fn composed(project: Seq<char>, file: Seq<char>, started_at: i64, options: DisplayOptions) -> PayloadView {
    if project.len() == 0 {
        PayloadView {
            details: "Idle"@,
            state: "Idle"@,
            large_icon_key: fallback_icon().1,
            large_icon_label: fallback_icon().0,
            started_at,
        }
    } else {
        let icon = icon_for(extension_of(file));
        PayloadView {
            details: "Working on "@ + if options.show_file { file } else { "a file"@ },
            state: "in "@ + if options.show_project { project } else { "a Project"@ },
            large_icon_key: icon.1,
            large_icon_label: icon.0,
            started_at,
        }
    }
}

/// The extension of a file name.
pub fn file_extension(file: &str) -> (r: String)
    ensures
        r@ == extension_of(file@),
{
    let chars = chars_of(file);
    let n = chars.len();
    let dot: Vec<char> = vec!['.'];
    assert(dot@ == seq!['.']);
    match last_occurrence_exec(&chars, &dot) {
        Some(i) => {
            proof {
                lemma_last_occurrence_found(chars@, dot@, chars@.len());
                assert(occurs_at(chars@, dot@, i as int));
            }
            let rest = file.substring_char(i + 1, n);
            assert(rest@ =~= file@.skip(i + 1));
            String::from_str(rest)
        },
        None => String::new(),
    }
}

/// The icon's label and key for an extension.
pub fn icon_for_extension(ext: &str) -> (r: (&'static str, &'static str))
    ensures
        (r.0@, r.1@) == icon_for(ext@),
{
    if same_text(ext, "swift") {
        ("Swift", "swift")
    } else if same_text(ext, "cpp") || same_text(ext, "cp") || same_text(ext, "cxx") {
        ("C++", "cpp")
    } else if same_text(ext, "c") {
        ("C", "c")
    } else if same_text(ext, "rb") {
        ("Ruby", "ruby")
    } else if same_text(ext, "java") {
        ("Java", "java")
    } else if same_text(ext, "json") {
        ("JSON", "json")
    } else if same_text(ext, "metal") {
        ("Metal", "metal")
    } else {
        ("Xcode", "xcode")
    }
}

/// The payload for what was observed, anchored at `session_start`.
pub fn compose(state: &ApplicationState, session_start: i64, options: DisplayOptions) -> (r: ActivityPayload)
    ensures
        r@ == composed(state.project@, state.file@, session_start, options),
{
    if state.project.as_str().unicode_len() == 0 {
        return ActivityPayload {
            details: String::from_str("Idle"),
            state: String::from_str("Idle"),
            large_icon_key: String::from_str("xcode"),
            large_icon_label: String::from_str("Xcode"),
            started_at: session_start,
        };
    }
    let ext = file_extension(state.file.as_str());
    let (label, key) = icon_for_extension(ext.as_str());
    let details = if options.show_file {
        String::from_str("Working on ").concat(state.file.as_str())
    } else {
        String::from_str("Working on ").concat("a file")
    };
    let shown = if options.show_project {
        String::from_str("in ").concat(state.project.as_str())
    } else {
        String::from_str("in ").concat("a Project")
    };
    ActivityPayload {
        details,
        state: shown,
        large_icon_key: String::from_str(key),
        large_icon_label: String::from_str(label),
        started_at: session_start,
    }
}

/// An extension outside the table gets Xcode's own icon.
pub proof fn lemma_unknown_extension(project: Seq<char>, file: Seq<char>, started_at: i64, options: DisplayOptions)
    requires
        !is_known_extension(extension_of(file)),
    ensures
        icon_for(extension_of(file)) == fallback_icon(),
        composed(project, file, started_at, options).large_icon_label == fallback_icon().0,
        composed(project, file, started_at, options).large_icon_key == fallback_icon().1,
{
}

/// Without a project the payload is idle, whatever the file and the options.
pub proof fn lemma_idle_without_project(file: Seq<char>, started_at: i64, options: DisplayOptions)
    ensures
        composed(Seq::empty(), file, started_at, options).details == "Idle"@,
        composed(Seq::empty(), file, started_at, options).state == "Idle"@,
        composed(Seq::empty(), file, started_at, options).large_icon_key == fallback_icon().1,
{
}

} // verus!
