//! Argument handling of the clipboard lifecycle probe.

use vstd::prelude::*;

use crate::text::str_equal;

verus! {

/// A display-server clipboard backend the probe can exercise.
#[derive(Debug, Clone, Copy, PartialEq, Eq, Structural)]
pub enum Backend {
    Wayland,
    X11,
}

/// The backend a name stands for.
pub open spec fn backend_named(value: Seq<char>) -> Option<Backend> {
    if value == "wayland"@ {
        Some(Backend::Wayland)
    } else if value == "x11"@ {
        Some(Backend::X11)
    } else {
        None
    }
}

/// Each backend's name reads back as that backend, and only its name does.
pub proof fn lemma_backend_names_round_trip(backend: Backend, value: Seq<char>)
    ensures
        backend_named(match backend {
            Backend::Wayland => "wayland"@,
            Backend::X11 => "x11"@,
        }) == Some(backend),
        backend_named(value) == Some(backend) ==> value == match backend {
            Backend::Wayland => "wayland"@,
            Backend::X11 => "x11"@,
        },
{
    reveal_strlit("wayland");
    reveal_strlit("x11");
    assert("wayland"@.len() != "x11"@.len());
}

impl Backend {
    /// The backend a name stands for.
    pub fn parse(value: &str) -> (backend: Option<Self>)
        ensures
            backend == backend_named(value@),
    {
        if str_equal(value, "wayland") {
            Some(Backend::Wayland)
        } else if str_equal(value, "x11") {
            Some(Backend::X11)
        } else {
            None
        }
    }

    /// The name of this backend.
    pub fn name(self) -> (name: &'static str)
        ensures
            name@ == match self {
                Backend::Wayland => "wayland"@,
                Backend::X11 => "x11"@,
            },
    {
        match self {
            Backend::Wayland => "wayland",
            Backend::X11 => "x11",
        }
    }
}

/// The backends the probe's arguments ask for: none without arguments;
/// after `--exercise-lifecycle`, one named backend or `all` of them; any
/// other arguments are a usage error.
pub open spec fn requested(arguments: Seq<Seq<char>>) -> Option<Seq<Backend>> {
    if arguments.len() == 0 {
        Some(seq![])
    } else if arguments.len() == 2 && arguments[0] == "--exercise-lifecycle"@ {
        if arguments[1] == "all"@ {
            Some(seq![Backend::Wayland, Backend::X11])
        } else {
            match backend_named(arguments[1]) {
                Some(backend) => Some(seq![backend]),
                None => None,
            }
        }
    } else {
        None
    }
}

/// The backends the probe's arguments ask for.
pub fn requested_backends(arguments: &[String]) -> (backends: Option<Vec<Backend>>)
    ensures
        match requested(arguments@.map_values(|argument: String| argument@)) {
            Some(expected) => backends matches Some(found) && found@ == expected,
            None => backends is None,
        },
{
    let ghost views = arguments@.map_values(|argument: String| argument@);
    if arguments.len() == 0 {
        let none: Vec<Backend> = Vec::new();
        assert(none@ =~= Seq::<Backend>::empty());
        return Some(none);
    }
    if arguments.len() != 2 || !str_equal(arguments[0].as_str(), "--exercise-lifecycle") {
        assert(views[0] == arguments@[0]@);
        return None;
    }
    assert(views[0] == arguments@[0]@ && views[1] == arguments@[1]@);
    if str_equal(arguments[1].as_str(), "all") {
        let all = vec![Backend::Wayland, Backend::X11];
        assert(all@ =~= seq![Backend::Wayland, Backend::X11]);
        return Some(all);
    }
    match Backend::parse(arguments[1].as_str()) {
        Some(backend) => {
            let one = vec![backend];
            assert(one@ =~= seq![backend]);
            Some(one)
        },
        None => None,
    }
}

} // verus!
