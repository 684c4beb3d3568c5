//! Build results and the messages that the hot-reload channel carries.

use vstd::prelude::*;

verus! {

/// Whether a rebuild succeeded.
#[derive(Clone, Copy, Debug, PartialEq, Eq, Structural)]
pub enum BuildStatus {
    Success,
    Failure,
}

/// What one completed rebuild produced.
#[derive(Debug)]
pub struct BuildResult {
    pub generation: u64,
    pub status: BuildStatus,
    /// Output-relative paths the rebuild changed; empty when unknown, which
    /// asks for a full reload.
    pub changed_assets: Vec<String>,
    pub error: Option<String>,
    pub duration_ms: u64,
}

/// A message to a connected browser client.
#[derive(Debug)]
pub enum HmrMessage {
    Connected { generation: u64 },
    Reload { generation: u64 },
    CssUpdate { generation: u64, paths: Vec<String> },
    BuildError { generation: u64, message: String },
}

/// The mathematical value of an `HmrMessage`.
pub enum MessageView {
    Connected { generation: u64 },
    Reload { generation: u64 },
    CssUpdate { generation: u64, paths: Seq<Seq<char>> },
    BuildError { generation: u64, message: Seq<char> },
}

impl MessageView {
    pub open spec fn generation(self) -> u64 {
        match self {
            MessageView::Connected { generation } => generation,
            MessageView::Reload { generation } => generation,
            MessageView::CssUpdate { generation, .. } => generation,
            MessageView::BuildError { generation, .. } => generation,
        }
    }
}

impl View for HmrMessage {
    type V = MessageView;

    open spec fn view(&self) -> MessageView {
        match self {
            HmrMessage::Connected { generation } => MessageView::Connected { generation: *generation },
            HmrMessage::Reload { generation } => MessageView::Reload { generation: *generation },
            HmrMessage::CssUpdate { generation, paths } => MessageView::CssUpdate {
                generation: *generation,
                paths: paths.deep_view(),
            },
            HmrMessage::BuildError { generation, message } => MessageView::BuildError {
                generation: *generation,
                message: message@,
            },
        }
    }
}

/// A path names a stylesheet when it ends in `.css`.
pub open spec fn is_stylesheet(p: Seq<char>) -> bool {
    &&& p.len() >= 4
    &&& p[p.len() - 4] == '.'
    &&& p[p.len() - 3] == 'c'
    &&& p[p.len() - 2] == 's'
    &&& p[p.len() - 1] == 's'
}

/// A change set that a client can apply by swapping stylesheets alone.
pub open spec fn styles_only(assets: Seq<Seq<char>>) -> bool {
    assets.len() > 0 && forall|i: int| 0 <= i < assets.len() ==> is_stylesheet(#[trigger] assets[i])
}

pub open spec fn error_text(error: Option<Seq<char>>) -> Seq<char> {
    match error {
        Some(m) => m,
        None => Seq::empty(),
    }
}

/// The message that announces a completed rebuild.
pub open spec fn announcement(
    generation: u64,
    status: BuildStatus,
    assets: Seq<Seq<char>>,
    error: Option<Seq<char>>,
) -> MessageView {
    if status == BuildStatus::Failure {
        MessageView::BuildError { generation, message: error_text(error) }
    } else if styles_only(assets) {
        MessageView::CssUpdate { generation, paths: assets }
    } else {
        MessageView::Reload { generation }
    }
}

pub open spec fn option_view(o: Option<String>) -> Option<Seq<char>> {
    match o {
        Some(s) => Some(s@),
        None => None,
    }
}

impl BuildResult {
    /// The message that announces this result to clients.
    pub open spec fn spec_announcement(&self) -> MessageView {
        announcement(
            self.generation,
            self.status,
            self.changed_assets.deep_view(),
            option_view(self.error),
        )
    }

    /// Builds the message that announces this result: an error report on
    /// failure, a stylesheet swap when only stylesheets changed, else a reload.
    pub fn announcement(&self) -> (m: HmrMessage)
        ensures
            m@ == self.spec_announcement(),
    {
        match self.status {
            BuildStatus::Failure => {
                let message = match &self.error {
                    Some(e) => e.clone(),
                    None => String::new(),
                };
                HmrMessage::BuildError { generation: self.generation, message }
            },
            BuildStatus::Success => {
                if all_stylesheets(&self.changed_assets) {
                    HmrMessage::CssUpdate {
                        generation: self.generation,
                        paths: copy_paths(&self.changed_assets),
                    }
                } else {
                    HmrMessage::Reload { generation: self.generation }
                }
            },
        }
    }
}

impl HmrMessage {
    /// The build generation this message speaks for.
    pub fn generation(&self) -> (g: u64)
        ensures
            g == self@.generation(),
    {
        match self {
            HmrMessage::Connected { generation } => *generation,
            HmrMessage::Reload { generation } => *generation,
            HmrMessage::CssUpdate { generation, .. } => *generation,
            HmrMessage::BuildError { generation, .. } => *generation,
        }
    }
}

/// Whether `path` ends in `.css`.
pub fn is_stylesheet_path(path: &str) -> (r: bool)
    ensures
        r == is_stylesheet(path@),
{
    let n = path.unicode_len();
    if n < 4 {
        return false;
    }
    path.get_char(n - 4) == '.' && path.get_char(n - 3) == 'c' && path.get_char(n - 2) == 's'
        && path.get_char(n - 1) == 's'
}

/// Whether the change set is non-empty and holds stylesheets only.
pub fn all_stylesheets(paths: &Vec<String>) -> (r: bool)
    ensures
        r == styles_only(paths.deep_view()),
{
    if paths.len() == 0 {
        return false;
    }
    let mut i: usize = 0;
    while i < paths.len()
        invariant
            0 <= i <= paths.len(),
            forall|j: int| 0 <= j < i ==> is_stylesheet(#[trigger] paths.deep_view()[j]),
        decreases paths.len() - i,
    {
        if !is_stylesheet_path(paths[i].as_str()) {
            assert(!is_stylesheet(paths.deep_view()[i as int]));
            return false;
        }
        i = i + 1;
    }
    true
}

/// A copy of a list of paths.
pub fn copy_paths(paths: &Vec<String>) -> (r: Vec<String>)
    ensures
        r.deep_view() == paths.deep_view(),
{
    let mut out: Vec<String> = Vec::new();
    let mut i: usize = 0;
    while i < paths.len()
        invariant
            0 <= i <= paths.len(),
            out.deep_view() == paths.deep_view().take(i as int),
        decreases paths.len() - i,
    {
        out.push(paths[i].clone());
        proof {
            assert(paths.deep_view().take(i as int + 1) =~= paths.deep_view().take(i as int).push(paths[i as int]@));
            assert(out.deep_view() =~= paths.deep_view().take(i as int + 1));
        }
        i = i + 1;
    }
    assert(paths.deep_view().take(paths.len() as int) =~= paths.deep_view());
    out
}

} // verus!
