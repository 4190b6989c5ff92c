//! The viewer's start screen: whether the stream has loaded, and the window title
//! that says so.

use vstd::prelude::*;

verus! {

/// The state of the start screen.
#[derive(Debug, Clone, Copy, PartialEq, Eq)]
pub enum Gameview {
    Loading,
    Loaded,
}

/// The messages of the start screen.
#[derive(Debug, Clone, Copy, PartialEq, Eq)]
pub enum Message {
    Loaded,
    StartHost,
}

/// The title of the start screen's window.
pub open spec fn title_of(view: Gameview) -> Seq<char> {
    match view {
        Gameview::Loading => "Gameview "@ + ""@ + "- WGPU"@,
        Gameview::Loaded => "Gameview "@ + "Loading... "@ + "- WGPU"@,
    }
}

/// The state of the start screen after a message.
pub open spec fn gameview_after(view: Gameview, message: Message) -> Gameview {
    match message {
        Message::Loaded => Gameview::Loaded,
        Message::StartHost => view,
    }
}

impl Gameview {
    /// The start screen, loading.
    pub fn new() -> (view: Gameview)
        ensures
            view == Gameview::Loading,
    {
        Gameview::Loading
    }

    /// The window title: "Gameview - WGPU", with "Loading... " before the dash once the
    /// screen is marked loaded.
    pub fn title(&self) -> (title: String)
        ensures
            title@ == title_of(*self),
    {
        let dirty = match self {
            Gameview::Loading => false,
            Gameview::Loaded => true,
        };
        let mut title = String::from_str("Gameview ");
        if dirty {
            title.append("Loading... ");
        } else {
            title.append("");
        }
        title.append("- WGPU");
        title
    }

    /// Takes one message: `Loaded` marks the screen loaded, `StartHost` leaves it.
    pub fn update(&mut self, message: Message)
        ensures
            *final(self) == gameview_after(*old(self), message),
    {
        match message {
            Message::Loaded => {
                *self = Gameview::Loaded;
            },
            Message::StartHost => {},
        }
    }
}

} // verus!
