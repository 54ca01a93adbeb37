//! Atom identifiers, the table of atoms a clipboard connection uses, and the
//! plain data of a connection context.

use vstd::prelude::*;
use crate::error::Error;
use crate::xproto;

verus! {

/// A 32-bit X11 identifier naming a selection, target, type or property.
pub type Atom = u32;

/// A 32-bit X11 window identifier.
pub type Window = u32;

/// The atoms one clipboard context works with.
#[derive(Clone, Copy, Debug, PartialEq, Eq, Structural)]
pub struct Atoms {
    pub primary: Atom,
    pub clipboard: Atom,
    pub property: Atom,
    pub targets: Atom,
    pub string: Atom,
    pub utf8_string: Atom,
    pub incr: Atom,
}

/// The two selections a clipboard reads and writes.
#[derive(Clone, Copy, Debug, PartialEq, Eq, Structural)]
pub enum Selection {
    Clipboard,
    Primary,
}

/// The atoms that have to be interned at the server, in the order in which a
/// context asks for them.
#[derive(Clone, Copy, Debug, PartialEq, Eq, Structural)]
pub enum Interned {
    Clipboard,
    Property,
    Targets,
    Utf8String,
    Incr,
}

impl Interned {
    /// The name under which the atom is interned.
    pub open spec fn name_of(which: Interned) -> &'static str {
        match which {
            Interned::Clipboard => "CLIPBOARD",
            Interned::Property => "THIS_CLIPBOARD_OUT",
            Interned::Targets => "TARGETS",
            Interned::Utf8String => "UTF8_STRING",
            Interned::Incr => "INCR",
        }
    }

    /// The name under which the atom is interned.
    pub fn name(&self) -> (name: &'static str)
        ensures
            name@ == Self::name_of(*self)@,
    {
        match self {
            Interned::Clipboard => "CLIPBOARD",
            Interned::Property => "THIS_CLIPBOARD_OUT",
            Interned::Targets => "TARGETS",
            Interned::Utf8String => "UTF8_STRING",
            Interned::Incr => "INCR",
        }
    }
}

impl Atoms {
    /// The atom that names `which` in requests and in the store.
    pub open spec fn selection_of(self, which: Selection) -> Atom {
        match which {
            Selection::Clipboard => self.clipboard,
            Selection::Primary => self.primary,
        }
    }

    /// The atom that names `which` in requests and in the store.
    pub fn selection(&self, which: Selection) -> (atom: Atom)
        ensures
            atom == self.selection_of(which),
    {
        match which {
            Selection::Clipboard => self.clipboard,
            Selection::Primary => self.primary,
        }
    }

    /// Builds the table from the five interned atoms; `PRIMARY` and `STRING`
    /// are predefined by the protocol and need no round trip.
    pub fn new(clipboard: Atom, property: Atom, targets: Atom, utf8_string: Atom, incr: Atom) -> (atoms:
        Atoms)
        ensures
            atoms == (Atoms {
                primary: xproto::PRIMARY,
                clipboard,
                property,
                targets,
                string: xproto::STRING,
                utf8_string,
                incr,
            }),
    {
        Atoms {
            primary: xproto::atom_primary(),
            clipboard,
            property,
            targets,
            string: xproto::atom_string(),
            utf8_string,
            incr,
        }
    }
}

/// The parameters of the small unmapped window that a context creates.
#[derive(Clone, Copy, Debug, PartialEq, Eq, Structural)]
pub struct WindowSetup {
    pub window: Window,
    pub parent: Window,
    pub visual: u32,
    pub x: i16,
    pub y: i16,
    pub width: u16,
    pub height: u16,
    pub border_width: u16,
    pub depth: u8,
    pub class: u16,
    pub event_mask: u32,
}

/// The plain data of one connection to the server: the screen it uses, the
/// window it created there and its atoms.
#[derive(Clone, Copy, Debug, PartialEq, Eq, Structural)]
pub struct Context {
    pub screen: usize,
    pub window: Window,
    pub atoms: Atoms,
}

impl Context {
    /// The event mask of a context's window: structure and property changes.
    pub open spec fn event_mask() -> u32 {
        xproto::STRUCTURE_NOTIFY | xproto::PROPERTY_CHANGE
    }

    /// The window to create for a context on screen number `screen`, out of
    /// `screens` screens, below the screen's `root` window: one pixel at the
    /// origin, an input-output window with the root's visual and depth,
    /// listening to structure and property changes. A screen number that the server does not have is refused.
    pub fn window_setup(
        screen: usize,
        screens: usize,
        window: Window,
        root: Window,
        root_visual: u32,
    ) -> (setup: Result<WindowSetup, Error>)
        ensures
            screen >= screens ==> setup == Err::<WindowSetup, Error>(Error::ConnectionFailed),
            screen < screens ==> setup == Ok::<WindowSetup, Error>(
                WindowSetup {
                    window,
                    parent: root,
                    visual: root_visual,
                    x: 0,
                    y: 0,
                    width: 1,
                    height: 1,
                    border_width: 0,
                    depth: xproto::COPY_DEPTH_FROM_PARENT,
                    class: xproto::INPUT_OUTPUT,
                    event_mask: Self::event_mask(),
                },
            ),
    {
        if screen >= screens {
            return Err(Error::ConnectionFailed);
        }
        let event_mask: u32 = xproto::mask_structure_notify() | xproto::mask_property_change();
        Ok(
            WindowSetup {
                window,
                parent: root,
                visual: root_visual,
                x: 0,
                y: 0,
                width: 1,
                height: 1,
                border_width: 0,
                depth: xproto::copy_depth_from_parent(),
                class: xproto::class_input_output(),
                event_mask,
            },
        )
    }

    /// A context on `screen` with the window it created and its atoms.
    pub fn new(screen: usize, window: Window, atoms: Atoms) -> (context: Context)
        ensures
            context == (Context { screen, window, atoms }),
    {
        Context { screen, window, atoms }
    }
}

} // verus!
