//! What the host tells the kernel: a native window was resized,
//! activated or closed, a frame was shown, a key or the pointer moved.
//!
//! Each callback of the host becomes events for the clients. Input goes
//! to the surface that has the focus, and to no other.

use vstd::prelude::*;
use crate::backend::cocoa::input::{evdev_button, evdev_keycode, scroll_events, InputTranslator};
use crate::backend::cocoa::input::{depressed_modifiers, locked_modifiers};
use crate::compositor::state::{serial_after, CompositorState};
use crate::compositor::surface::{SurfaceId, SurfaceView};
use crate::compositor::window::{Window, WindowGeometry, WindowId, WindowManager};
use crate::input::first_index;
use crate::input::keyboard::{KeyboardView, ModifierState};
use crate::input::pointer::PointerView;
use crate::input::seat::SeatView;
use crate::protocol::seat::{ButtonState, KeyState, KeyboardEvent, PointerEvent};
use crate::server::{Effect, ServerState};

verus! {

broadcast use vstd::std_specs::hash::group_hash_axioms;

/// A length of the host as the wire carries it: lengths beyond the
/// largest signed 32-bit number are cut down to it.
pub open spec fn wire_length(length: u32) -> i32 {
    if length > i32::MAX {
        i32::MAX
    } else {
        length as i32
    }
}

/// Whether every input event of `effects` goes to the surface that has
/// the focus: an event that tells a surface that it lost the focus goes
/// to the surface that had it before, and every other event to the
/// surface that has it afterwards.
pub open spec fn routed_to_focus(before: SeatView, after: SeatView, effects: Seq<Effect>) -> bool {
    forall|i: int|
        0 <= i < effects.len() ==> match #[trigger] effects[i] {
            Effect::Keyboard { surface, event } => match event {
                KeyboardEvent::Leave { surface: left } => left == surface && before.keyboard.focus
                    == Some(surface),
                _ => after.keyboard.focus == Some(surface),
            },
            Effect::Pointer { surface, event } => match event {
                PointerEvent::Leave { surface: left } => left == surface && before.pointer.focus
                    == Some(surface),
                _ => after.pointer.focus == Some(surface),
            },
            _ => true,
        }
}

/// What a client is sent when the keyboard's focus goes from `from` to
/// `to` while the keys `pressed` are down: the surface that had the
/// focus is told that it lost it, and right after that the surface that
/// gains it is told so, with the keys that are down, and told the
/// modifiers.
pub open spec fn focus_events(
    from: Option<SurfaceId>,
    to: Option<SurfaceId>,
    keyboard: KeyboardView,
    effects: Seq<Effect>,
) -> bool {
    let left = if from is Some && from != to {
        1int
    } else {
        0int
    };
    let entered = if to is Some && from != to {
        2int
    } else {
        0int
    };
    &&& effects.len() == left + entered
    &&& left == 1 ==> effects[0] == (Effect::Keyboard {
        surface: from->0,
        event: KeyboardEvent::Leave { surface: from->0 },
    })
    &&& entered == 2 ==> {
        &&& effects[left] matches Effect::Keyboard {
            surface,
            event: KeyboardEvent::Enter { surface: entered_surface, pressed_keys },
        } && surface == to->0 && entered_surface == to->0 && pressed_keys@ == keyboard.pressed
        &&& effects[left + 1] == (Effect::Keyboard {
            surface: to->0,
            event: KeyboardEvent::Modifiers {
                depressed: keyboard.modifiers.depressed,
                latched: keyboard.modifiers.latched,
                locked: keyboard.modifiers.locked,
                group: keyboard.modifiers.group,
            },
        })
    }
}

/// When the keyboard's focus goes from one surface to another, the
/// first event tells the old surface that it lost the focus, and the
/// very next tells the new surface that it has it, with the keys that
/// were down at that moment: no key event comes between the two.
pub proof fn lemma_focus_change_order(
    from: SurfaceId,
    to: SurfaceId,
    keyboard: KeyboardView,
    effects: Seq<Effect>,
)
    requires
        from != to,
        focus_events(Some(from), Some(to), keyboard, effects),
    ensures
        effects.len() == 3,
        effects[0] == (Effect::Keyboard {
            surface: from,
            event: KeyboardEvent::Leave { surface: from },
        }),
        effects[1] matches Effect::Keyboard {
            surface,
            event: KeyboardEvent::Enter { surface: entered, pressed_keys },
        } && surface == to && entered == to && pressed_keys@ == keyboard.pressed,
        forall|i: int|
            0 <= i < effects.len() ==> !(#[trigger] effects[i] matches Effect::Keyboard {
                event: KeyboardEvent::Key { .. },
                ..
            }),
{
}

impl ServerState {
    /// The surface of a window, where the window exists.
    pub open spec fn surface_of(&self, window: WindowId) -> Option<SurfaceId> {
        if self.compositor.windows.windows().contains_key(window.0) {
            Some(self.compositor.windows.windows()[window.0].surface_id)
        } else {
            None
        }
    }

    /// Between `pre` and `post`, nothing changed but the seat, which is
    /// `seat` in `post`.
    pub open spec fn only_seat_changed(pre: &Self, post: &Self, seat: SeatView) -> bool {
        &&& post.shm == pre.shm
        &&& post.xdg_surfaces == pre.xdg_surfaces
        &&& post.compositor == (CompositorState { seat: post.compositor.seat, ..pre.compositor })
        &&& post.compositor.seat@ == seat
    }

    /// The surface of a window, where the window exists.
    fn window_surface(&self, window: WindowId) -> (r: Option<SurfaceId>)
        ensures
            r == self.surface_of(window),
    {
        match self.compositor.windows.get(window) {
            Some(w) => Some(w.surface_id),
            None => None,
        }
    }

    /// The host has closed a native window: the client is asked to close
    /// the toplevel. Surface, window and buffers stay until the client
    /// destroys them.
    pub fn did_close(&self, window: WindowId) -> (effects: Vec<Effect>)
        ensures
            effects@ == match self.surface_of(window) {
                Some(surface) => seq![Effect::ToplevelClose { surface }],
                None => Seq::<Effect>::empty(),
            },
    {
        let mut effects: Vec<Effect> = Vec::new();
        match self.window_surface(window) {
            Some(surface) => {
                effects.push(Effect::ToplevelClose { surface });
                assert(effects@ =~= seq![Effect::ToplevelClose { surface }]);
            },
            None => {},
        }
        effects
    }

    /// Whether a key event of the host is passed on: the window exists
    /// and its surface has the keyboard's focus, the key is one of the
    /// table, and the key changes: it goes down and was up, or goes up
    /// and was down.
    pub open spec fn key_passes(&self, window: WindowId, host_keycode: u16, pressed: bool) -> bool {
        &&& self.surface_of(window) is Some
        &&& self.seat().keyboard.focus == self.surface_of(window)
        &&& evdev_keycode(host_keycode) != 0
        &&& pressed != self.seat().keyboard.pressed.contains(evdev_keycode(host_keycode))
    }

    /// The host reports a key of a window. A key that passes is noted as
    /// down or up, and the client of the focused surface is sent the key;
    /// any other changes nothing and sends nothing.
    pub fn did_input_key(&mut self, window: WindowId, host_keycode: u16, pressed: bool, time: u32)
        -> (effects: Vec<Effect>)
        requires
            old(self).wf(),
        ensures
            final(self).wf(),
            routed_to_focus(old(self).seat(), final(self).seat(), effects@),
            if old(self).key_passes(window, host_keycode, pressed) {
                let key = evdev_keycode(host_keycode);
                let keyboard = old(self).seat().keyboard;
                &&& effects@ == seq![
                    Effect::Keyboard {
                        surface: keyboard.focus->0,
                        event: KeyboardEvent::Key {
                            time,
                            key,
                            state: if pressed {
                                KeyState::Pressed
                            } else {
                                KeyState::Released
                            },
                        },
                    },
                ]
                &&& Self::only_seat_changed(
                    old(self),
                    final(self),
                    SeatView {
                        keyboard: KeyboardView {
                            pressed: if pressed {
                                keyboard.pressed.push(key)
                            } else {
                                keyboard.pressed.remove(first_index(keyboard.pressed, key))
                            },
                            ..keyboard
                        },
                        ..old(self).seat()
                    },
                )
            } else {
                effects@.len() == 0 && Self::only_seat_changed(
                    old(self),
                    final(self),
                    old(self).seat(),
                )
            },
    {
        let mut effects: Vec<Effect> = Vec::new();
        let surface = match self.window_surface(window) {
            Some(s) => s,
            None => {
                return effects;
            },
        };
        let focused = match self.compositor.seat.keyboard_focus() {
            Some(f) => f.0 == surface.0,
            None => false,
        };
        let translator = InputTranslator::new();
        let key = translator.translate_keycode(host_keycode);
        if !focused || key == 0 {
            return effects;
        }
        let keyboard = self.compositor.seat.keyboard_mut();
        let changed = if pressed {
            keyboard.key_press(key)
        } else {
            keyboard.key_release(key)
        };
        if changed {
            effects.push(
                Effect::Keyboard { surface, event: translator.key_event(host_keycode, pressed, time) },
            );
            assert(effects@ =~= seq![
                Effect::Keyboard {
                    surface,
                    event: KeyboardEvent::Key {
                        time,
                        key,
                        state: if pressed {
                            KeyState::Pressed
                        } else {
                            KeyState::Released
                        },
                    },
                },
            ]);
        }
        effects
    }

    /// The modifier state that the host's flags stand for.
    pub open spec fn host_modifiers(macos_flags: u64) -> ModifierState {
        ModifierState {
            depressed: depressed_modifiers(macos_flags),
            latched: 0,
            locked: locked_modifiers(macos_flags),
            group: 0,
        }
    }

    /// The host reports its modifier flags. The keyboard notes the
    /// modifiers, and where they have changed, the client of the focused
    /// surface is told.
    pub fn did_input_modifiers(&mut self, macos_flags: u64) -> (effects: Vec<Effect>)
        requires
            old(self).wf(),
        ensures
            final(self).wf(),
            routed_to_focus(old(self).seat(), final(self).seat(), effects@),
            Self::only_seat_changed(
                old(self),
                final(self),
                SeatView {
                    keyboard: KeyboardView {
                        modifiers: Self::host_modifiers(macos_flags),
                        ..old(self).seat().keyboard
                    },
                    ..old(self).seat()
                },
            ),
            effects@ == if old(self).seat().keyboard.focus is Some && old(self).seat().keyboard.modifiers != Self::host_modifiers(macos_flags) {
                seq![
                    Effect::Keyboard {
                        surface: old(self).seat().keyboard.focus->0,
                        event: KeyboardEvent::Modifiers {
                            depressed: depressed_modifiers(macos_flags),
                            latched: 0,
                            locked: locked_modifiers(macos_flags),
                            group: 0,
                        },
                    },
                ]
            } else {
                Seq::<Effect>::empty()
            },
    {
        let translator = InputTranslator::new();
        let (depressed, latched, locked, group) = translator.translate_modifiers(macos_flags);
        let modifiers = ModifierState { depressed, latched, locked, group };
        let before = self.compositor.seat.keyboard().modifiers();
        let focus = self.compositor.seat.keyboard_focus();
        self.compositor.seat.keyboard_mut().update_modifiers(modifiers);
        let mut effects: Vec<Effect> = Vec::new();
        let changed = before.depressed != depressed || before.latched != latched || before.locked
            != locked || before.group != group;
        match focus {
            Some(surface) => {
                if changed {
                    effects.push(
                        Effect::Keyboard {
                            surface,
                            event: translator.modifier_event(depressed, latched, locked, group),
                        },
                    );
                    assert(effects@ =~= seq![
                        Effect::Keyboard {
                            surface,
                            event: KeyboardEvent::Modifiers { depressed, latched, locked, group },
                        },
                    ]);
                }
            },
            None => {},
        }
        effects
    }

    /// The host reports the pointer over a window, at a place in the
    /// window's surface. Where the surface has the pointer's focus, its
    /// client is sent the motion. Else the focus goes to the surface: the
    /// surface that had it is told that it lost it, and the new one that
    /// the pointer came in at that place. A frame ends the batch.
    pub fn did_input_pointer_motion(&mut self, window: WindowId, x: i32, y: i32, time: u32) -> (effects:
        Vec<Effect>)
        requires
            old(self).wf(),
        ensures
            final(self).wf(),
            routed_to_focus(old(self).seat(), final(self).seat(), effects@),
            match old(self).surface_of(window) {
                Some(surface) => {
                    let pointer = old(self).seat().pointer;
                    &&& Self::only_seat_changed(
                        old(self),
                        final(self),
                        SeatView {
                            pointer: PointerView {
                                focus: Some(surface),
                                position: (x, y),
                                ..pointer
                            },
                            ..old(self).seat()
                        },
                    )
                    &&& effects@ == if pointer.focus == Some(surface) {
                        seq![
                            Effect::Pointer {
                                surface,
                                event: PointerEvent::Motion { time, x, y },
                            },
                            Effect::Pointer { surface, event: PointerEvent::Frame },
                        ]
                    } else {
                        (match pointer.focus {
                            Some(left) => seq![
                                Effect::Pointer {
                                    surface: left,
                                    event: PointerEvent::Leave { surface: left },
                                },
                            ],
                            None => Seq::<Effect>::empty(),
                        }) + seq![
                            Effect::Pointer {
                                surface,
                                event: PointerEvent::Enter { surface, x, y },
                            },
                            Effect::Pointer { surface, event: PointerEvent::Frame },
                        ]
                    }
                },
                None => effects@.len() == 0 && *final(self) == *old(self),
            },
    {
        let mut effects: Vec<Effect> = Vec::new();
        let surface = match self.window_surface(window) {
            Some(s) => s,
            None => {
                return effects;
            },
        };
        let focused = match self.compositor.seat.pointer_focus() {
            Some(f) => f.0 == surface.0,
            None => false,
        };
        if focused {
            self.compositor.seat.pointer_mut().motion(x, y);
            effects.push(Effect::Pointer { surface, event: PointerEvent::Motion { time, x, y } });
        } else {
            let change = self.compositor.seat.pointer_mut().set_focus(Some(surface), x, y);
            match change.old_focus {
                Some(left) => {
                    effects.push(
                        Effect::Pointer {
                            surface: left,
                            event: PointerEvent::Leave { surface: left },
                        },
                    );
                },
                None => {},
            }
            effects.push(Effect::Pointer { surface, event: PointerEvent::Enter { surface, x, y } });
        }
        effects.push(Effect::Pointer { surface, event: PointerEvent::Frame });
        proof {
            let pointer = old(self).seat().pointer;
            if pointer.focus == Some(surface) {
                assert(effects@ =~= seq![
                    Effect::Pointer { surface, event: PointerEvent::Motion { time, x, y } },
                    Effect::Pointer { surface, event: PointerEvent::Frame },
                ]);
            } else {
                assert(effects@ =~= (match pointer.focus {
                    Some(left) => seq![
                        Effect::Pointer {
                            surface: left,
                            event: PointerEvent::Leave { surface: left },
                        },
                    ],
                    None => Seq::<Effect>::empty(),
                }) + seq![
                    Effect::Pointer { surface, event: PointerEvent::Enter { surface, x, y } },
                    Effect::Pointer { surface, event: PointerEvent::Frame },
                ]);
            }
        }
        effects
    }

    /// Whether a button event of the host is passed on: the window
    /// exists and its surface has the pointer's focus, and the button
    /// changes: it goes down and was up, or goes up and was down.
    pub open spec fn button_passes(&self, window: WindowId, host_button: i32, pressed: bool)
        -> bool {
        &&& self.surface_of(window) is Some
        &&& self.seat().pointer.focus == self.surface_of(window)
        &&& pressed != self.seat().pointer.pressed.contains(evdev_button(host_button))
    }

    /// The host reports a mouse button over a window. A button that
    /// passes is noted as down or up, and the client of the focused
    /// surface is sent the button and a frame; any other changes nothing
    /// and sends nothing.
    pub fn did_input_pointer_button(
        &mut self,
        window: WindowId,
        host_button: i32,
        pressed: bool,
        time: u32,
    ) -> (effects: Vec<Effect>)
        requires
            old(self).wf(),
        ensures
            final(self).wf(),
            routed_to_focus(old(self).seat(), final(self).seat(), effects@),
            if old(self).button_passes(window, host_button, pressed) {
                let button = evdev_button(host_button);
                let pointer = old(self).seat().pointer;
                &&& effects@ == seq![
                    Effect::Pointer {
                        surface: pointer.focus->0,
                        event: PointerEvent::Button {
                            time,
                            button,
                            state: if pressed {
                                ButtonState::Pressed
                            } else {
                                ButtonState::Released
                            },
                        },
                    },
                    Effect::Pointer { surface: pointer.focus->0, event: PointerEvent::Frame },
                ]
                &&& Self::only_seat_changed(
                    old(self),
                    final(self),
                    SeatView {
                        pointer: PointerView {
                            pressed: if pressed {
                                pointer.pressed.push(button)
                            } else {
                                pointer.pressed.remove(first_index(pointer.pressed, button))
                            },
                            ..pointer
                        },
                        ..old(self).seat()
                    },
                )
            } else {
                effects@.len() == 0 && Self::only_seat_changed(
                    old(self),
                    final(self),
                    old(self).seat(),
                )
            },
    {
        let mut effects: Vec<Effect> = Vec::new();
        let surface = match self.window_surface(window) {
            Some(s) => s,
            None => {
                return effects;
            },
        };
        let focused = match self.compositor.seat.pointer_focus() {
            Some(f) => f.0 == surface.0,
            None => false,
        };
        if !focused {
            return effects;
        }
        let translator = InputTranslator::new();
        let button = translator.translate_button(host_button);
        let pointer = self.compositor.seat.pointer_mut();
        let changed = if pressed {
            pointer.button_press(button)
        } else {
            pointer.button_release(button)
        };
        if changed {
            effects.push(
                Effect::Pointer { surface, event: translator.button_event(host_button, pressed, time) },
            );
            effects.push(Effect::Pointer { surface, event: PointerEvent::Frame });
            assert(effects@ =~= seq![
                Effect::Pointer {
                    surface,
                    event: PointerEvent::Button {
                        time,
                        button,
                        state: if pressed {
                            ButtonState::Pressed
                        } else {
                            ButtonState::Released
                        },
                    },
                },
                Effect::Pointer { surface, event: PointerEvent::Frame },
            ]);
        }
        effects
    }

    /// The host reports a scroll step over a window. Where the window's
    /// surface has the pointer's focus, its client is sent the events of
    /// the step, which a frame ends; else nothing is sent.
    pub fn did_input_scroll(&self, window: WindowId, dx: i32, dy: i32, time: u32) -> (effects: Vec<
        Effect,
    >)
        ensures
            routed_to_focus(self.seat(), self.seat(), effects@),
            effects@ == if self.surface_of(window) is Some && self.seat().pointer.focus
                == self.surface_of(window) {
                scroll_events(dx, dy, time).map_values(
                    |event: PointerEvent|
                        Effect::Pointer { surface: self.seat().pointer.focus->0, event },
                )
            } else {
                Seq::<Effect>::empty()
            },
    {
        let mut effects: Vec<Effect> = Vec::new();
        let surface = match self.window_surface(window) {
            Some(s) => s,
            None => {
                return effects;
            },
        };
        let focused = match self.compositor.seat.pointer_focus() {
            Some(f) => f.0 == surface.0,
            None => false,
        };
        if !focused {
            return effects;
        }
        let translator = InputTranslator::new();
        let events = translator.scroll_event(dx, dy, time);
        let ghost wanted = events@.map_values(
            |event: PointerEvent| Effect::Pointer { surface, event },
        );
        let mut i: usize = 0;
        while i < events.len()
            invariant
                i <= events@.len(),
                effects@ == wanted.take(i as int),
                wanted == events@.map_values(
                    |event: PointerEvent| Effect::Pointer { surface, event },
                ),
            decreases events@.len() - i,
        {
            effects.push(Effect::Pointer { surface, event: events[i] });
            assert(effects@ =~= wanted.take(i + 1));
            i = i + 1;
        }
        assert(wanted.take(i as int) =~= wanted);
        effects
    }

    /// The keyboard focus after a window was activated or deactivated: the
    /// window's surface where the window was activated; none where the
    /// window was deactivated and its surface had the focus; else the
    /// focus as it was.
    pub open spec fn focus_after(from: Option<SurfaceId>, surface: SurfaceId, active: bool)
        -> Option<SurfaceId> {
        if active {
            Some(surface)
        } else if from == Some(surface) {
            None
        } else {
            from
        }
    }

    /// How many events a change of the keyboard's focus takes.
    pub open spec fn focus_event_count(from: Option<SurfaceId>, to: Option<SurfaceId>) -> int {
        (if from is Some && from != to {
            1int
        } else {
            0int
        }) + (if to is Some && from != to {
            2int
        } else {
            0int
        })
    }

    /// What holds after the host has activated or deactivated a native
    /// window. Nothing happens where the window does not exist, and where
    /// a window is deactivated that does not have the focus. Else the
    /// window has the focus flags, or has lost them; the keyboard's focus
    /// is on the window's surface, or has left it; the clients are sent
    /// what `focus_events` says, and then the window's client a configure
    /// with the window's size and its new states, under the next serial.
    pub open spec fn activated(
        pre: &Self,
        post: &Self,
        window: WindowId,
        active: bool,
        effects: Seq<Effect>,
    ) -> bool {
        match pre.surface_of(window) {
            Some(surface) => if active || pre.compositor.windows.focused_id() == Some(window) {
                let target = if active {
                    Some(window)
                } else {
                    None
                };
                let from = pre.seat().keyboard.focus;
                let to = Self::focus_after(from, surface, active);
                let serial = pre.compositor.serial;
                let windows = WindowManager::refocused(
                    pre.compositor.windows.windows(),
                    pre.compositor.windows.focused_id(),
                    target,
                );
                let count = Self::focus_event_count(from, to);
                &&& post.shm == pre.shm
                &&& post.compositor == (CompositorState {
                    windows: post.compositor.windows,
                    seat: post.compositor.seat,
                    serial: serial_after(serial, 1),
                    ..pre.compositor
                })
                &&& post.compositor.windows.windows() =~= windows
                &&& post.compositor.windows.focused_id() == target
                &&& post.compositor.windows.surface_index()
                    == pre.compositor.windows.surface_index()
                &&& post.compositor.windows.registry() == pre.compositor.windows.registry()
                &&& post.seat() == (SeatView {
                    keyboard: KeyboardView { focus: to, ..pre.seat().keyboard },
                    ..pre.seat()
                })
                &&& if pre.xdg_surfaces@.contains_key(surface.0) {
                    Self::xdg_edited(pre, post, surface, pre.xdg_surfaces@[surface.0]@.sent(serial))
                } else {
                    post.xdg_surfaces == pre.xdg_surfaces
                }
                &&& effects.len() == count + 2
                &&& focus_events(from, to, pre.seat().keyboard, effects.take(count))
                &&& effects[count] == (Effect::ToplevelConfigure {
                    surface,
                    width: wire_length(windows[window.0].geometry.width),
                    height: wire_length(windows[window.0].geometry.height),
                    states: windows[window.0].state,
                })
                &&& effects[count + 1] == (Effect::XdgSurfaceConfigure { surface, serial })
            } else {
                effects.len() == 0 && *post == *pre
            },
            None => effects.len() == 0 && *post == *pre,
        }
    }

    /// A length of the host as the wire carries it.
    fn to_wire_length(length: u32) -> (r: i32)
        ensures
            r == wire_length(length),
    {
        if length > i32::MAX as u32 {
            i32::MAX
        } else {
            length as i32
        }
    }

    /// The host has activated or deactivated a native window.
    pub fn did_activate(&mut self, window: WindowId, active: bool) -> (effects: Vec<Effect>)
        requires
            old(self).wf(),
        ensures
            final(self).wf(),
            routed_to_focus(old(self).seat(), final(self).seat(), effects@),
            Self::activated(old(self), final(self), window, active, effects@),
    {
        let mut effects: Vec<Effect> = Vec::new();
        let surface = match self.window_surface(window) {
            Some(s) => s,
            None => {
                return effects;
            },
        };
        let has_focus = match self.compositor.windows.focused() {
            Some(w) => w.id.0 == window.0,
            None => false,
        };
        if !active && !has_focus {
            return effects;
        }
        self.compositor.windows.set_focused(
            if active {
                Some(window)
            } else {
                None
            },
        );
        let from = self.compositor.seat.keyboard_focus();
        let to = if active {
            Some(surface)
        } else {
            match from {
                Some(f) => if f.0 == surface.0 {
                    None
                } else {
                    from
                },
                None => None,
            }
        };
        let modifiers = self.compositor.seat.keyboard().modifiers();
        let change = self.compositor.seat.keyboard_mut().set_focus(to);
        let moved = match (from, to) {
            (Some(a), Some(b)) => a.0 != b.0,
            (None, None) => false,
            _ => true,
        };
        if moved {
            match from {
                Some(left) => {
                    effects.push(
                        Effect::Keyboard {
                            surface: left,
                            event: KeyboardEvent::Leave { surface: left },
                        },
                    );
                },
                None => {},
            }
            match to {
                Some(entered) => {
                    effects.push(
                        Effect::Keyboard {
                            surface: entered,
                            event: KeyboardEvent::Enter {
                                surface: entered,
                                pressed_keys: change.pressed_keys,
                            },
                        },
                    );
                    effects.push(
                        Effect::Keyboard {
                            surface: entered,
                            event: KeyboardEvent::Modifiers {
                                depressed: modifiers.depressed,
                                latched: modifiers.latched,
                                locked: modifiers.locked,
                                group: modifiers.group,
                            },
                        },
                    );
                },
                None => {},
            }
        }
        let ghost focus_part = effects@;
        let (width, height) = match self.compositor.windows.get(window) {
            Some(w) => (w.geometry.width, w.geometry.height),
            None => (0, 0),
        };
        match self.configure_toplevel(
            window,
            Self::to_wire_length(width),
            Self::to_wire_length(height),
        ) {
            Ok(mut configure) => {
                effects.append(&mut configure);
            },
            Err(_) => {},
        }
        assert(effects@.take(focus_part.len() as int) =~= focus_part);
        effects
    }

    /// The host has resized a native window. The window has the new
    /// size, and its client is sent a configure with that size and the
    /// window's states, under the next serial, which the window's shell
    /// surface notes as outstanding. Nothing happens where the window does
    /// not exist.
    pub fn did_resize(&mut self, window: WindowId, width: u32, height: u32) -> (effects: Vec<Effect>)
        requires
            old(self).wf(),
        ensures
            final(self).wf(),
            match old(self).surface_of(window) {
                Some(surface) => {
                    let before = old(self).compositor.windows.windows()[window.0];
                    let serial = old(self).compositor.serial;
                    &&& effects@ == seq![
                        Effect::ToplevelConfigure {
                            surface,
                            width: wire_length(width),
                            height: wire_length(height),
                            states: before.state,
                        },
                        Effect::XdgSurfaceConfigure { surface, serial },
                    ]
                    &&& final(self).shm == old(self).shm
                    &&& final(self).compositor == (CompositorState {
                        windows: final(self).compositor.windows,
                        serial: serial_after(serial, 1),
                        ..old(self).compositor
                    })
                    &&& Self::window_replaced(
                        old(self),
                        final(self),
                        window,
                        Window {
                            geometry: WindowGeometry { width, height, ..before.geometry },
                            ..before
                        },
                    )
                    &&& if old(self).xdg_surfaces@.contains_key(surface.0) {
                        Self::xdg_edited(
                            old(self),
                            final(self),
                            surface,
                            old(self).xdg_surfaces@[surface.0]@.sent(serial),
                        )
                    } else {
                        final(self).xdg_surfaces == old(self).xdg_surfaces
                    }
                },
                None => effects@.len() == 0 && *final(self) == *old(self),
            },
    {
        if self.compositor.windows.get(window).is_none() {
            return Vec::new();
        }
        match self.compositor.windows.get_mut(window) {
            Some(w) => {
                let (x, y) = (w.geometry.x, w.geometry.y);
                w.set_geometry(x, y, width, height);
            },
            None => {},
        }
        match self.configure_toplevel(
            window,
            Self::to_wire_length(width),
            Self::to_wire_length(height),
        ) {
            Ok(effects) => effects,
            Err(_) => Vec::new(),
        }
    }

    /// The host has shown a frame of a window at `time`, in milliseconds.
    /// The frame callbacks that were committed for the window's surface
    /// are fired with that time, in the order in which they were asked
    /// for, and the surface's damage is settled. Nothing happens where the
    /// window or its surface does not exist.
    pub fn did_present(&mut self, window: WindowId, time: u32) -> (effects: Vec<Effect>)
        requires
            old(self).wf(),
        ensures
            final(self).wf(),
            match old(self).surface_of(window) {
                Some(surface) => if old(self).compositor.surfaces@.contains_key(surface.0) {
                    let before = old(self).compositor.surfaces@[surface.0]@;
                    &&& Self::only_surface_changed(old(self), final(self), surface)
                    &&& final(self).compositor.surfaces@[surface.0]@ == (SurfaceView {
                        damage: Seq::empty(),
                        ready_callbacks: Seq::empty(),
                        ..before
                    })
                    &&& effects@ == before.ready_callbacks.map_values(
                        |callback: u32| Effect::FrameDone { surface, callback, time },
                    )
                } else {
                    effects@.len() == 0 && *final(self) == *old(self)
                },
                None => effects@.len() == 0 && *final(self) == *old(self),
            },
    {
        let mut effects: Vec<Effect> = Vec::new();
        let surface = match self.window_surface(window) {
            Some(s) => s,
            None => {
                return effects;
            },
        };
        if self.compositor.surfaces.get(surface).is_none() {
            return effects;
        }
        let callbacks = match self.compositor.surfaces.get_mut(surface) {
            Some(s) => {
                let _ = s.take_damage();
                s.take_ready_callbacks()
            },
            None => Vec::new(),
        };
        let ghost wanted = callbacks@.map_values(
            |callback: u32| Effect::FrameDone { surface, callback, time },
        );
        let mut i: usize = 0;
        while i < callbacks.len()
            invariant
                i <= callbacks@.len(),
                effects@ == wanted.take(i as int),
                wanted == callbacks@.map_values(
                    |callback: u32| Effect::FrameDone { surface, callback, time },
                ),
            decreases callbacks@.len() - i,
        {
            effects.push(Effect::FrameDone { surface, callback: callbacks[i], time });
            assert(effects@ =~= wanted.take(i + 1));
            i = i + 1;
        }
        assert(wanted.take(i as int) =~= wanted);
        effects
    }
}

} // verus!
