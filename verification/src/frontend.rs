//! Where a resolved link is played.

use vstd::prelude::*;

use crate::text::{chars_of, string_of};

verus! {

/// The program that plays a link.
#[derive(Debug, Clone, Copy, PartialEq, Eq, Structural)]
pub enum Frontend {
    DefaultBrowser,
    Brave,
    Mpv,
}

/// How to start the program that plays a link.
#[derive(Debug, Clone, PartialEq, Eq)]
pub enum Launch {
    /// Hand the link to the system's default handler.
    Open { target: String },
    /// Hand the link to the named application.
    OpenWith { application: String, target: String },
    /// Run a program of its own, detached and silent.
    Spawn { program: String, arguments: Vec<String> },
}

/// A [`Launch`] as the contracts see it.
pub enum LaunchView {
    Open { target: Seq<char> },
    OpenWith { application: Seq<char>, target: Seq<char> },
    Spawn { program: Seq<char>, arguments: Seq<Seq<char>> },
}

impl View for Launch {
    type V = LaunchView;

    open spec fn view(&self) -> LaunchView {
        match self {
            Launch::Open { target } => LaunchView::Open { target: target@ },
            Launch::OpenWith { application, target } => LaunchView::OpenWith {
                application: application@,
                target: target@,
            },
            Launch::Spawn { program, arguments } => LaunchView::Spawn {
                program: program@,
                arguments: arguments@.map_values(|a: String| a@),
            },
        }
    }
}

/// How a frontend is started on a link.
pub open spec fn launch_of(frontend: Frontend, link: Seq<char>) -> LaunchView {
    match frontend {
        Frontend::DefaultBrowser => LaunchView::Open { target: link },
        Frontend::Brave => LaunchView::OpenWith { application: "brave"@, target: link },
        Frontend::Mpv => LaunchView::Spawn {
            program: "mpv"@,
            arguments: seq!["--really-quiet"@, "--fullscreen"@, link],
        },
    }
}

fn owned(s: &str) -> (r: String)
    ensures
        r@ == s@,
{
    string_of(chars_of(s).as_slice())
}

impl Frontend {
    /// How to play `link` with this frontend.
    pub fn launch(&self, link: &str) -> (r: Launch)
        ensures
            r@ == launch_of(*self, link@),
    {
        match self {
            Frontend::DefaultBrowser => Launch::Open { target: owned(link) },
            Frontend::Brave => Launch::OpenWith {
                application: owned("brave"),
                target: owned(link),
            },
            Frontend::Mpv => {
                let mut arguments: Vec<String> = Vec::new();
                arguments.push(owned("--really-quiet"));
                arguments.push(owned("--fullscreen"));
                arguments.push(owned(link));
                assert(arguments@.map_values(|a: String| a@) =~= seq![
                    "--really-quiet"@,
                    "--fullscreen"@,
                    link@,
                ]);
                Launch::Spawn { program: owned("mpv"), arguments }
            },
        }
    }
}

} // verus!
