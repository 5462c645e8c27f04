//! Recording a mouse button or a key combination.
use vstd::prelude::*;

verus! {

/// What a recording waits for.
#[derive(Clone, Copy, Debug, PartialEq, Eq, Structural)]
pub enum RecStage {
    Idle,
    WaitingButton,
    WaitingCombo,
}

/// What a recording is for.
#[derive(Clone, Copy, Debug, PartialEq, Eq, Structural)]
pub enum RecMode {
    PanelTrigger,
    PanelCombo,
}

/// Number of the event for a mouse button other than the first two.
pub const OTHER_MOUSE_DOWN: u32 = 25;

/// Number of the event for a change of the modifier keys.
pub const FLAGS_CHANGED: u32 = 12;

/// Number of the event for a key.
pub const KEY_DOWN: u32 = 10;

/// Number of the escape key.
pub const ESCAPE: u16 = 53;

/// The flags of command, option, control and shift.
pub const MODIFIER_MASK: u32 = 0x001E_0000;

/// An event, as the tap sees it.
#[derive(Debug)]
pub struct TapEvent {
    pub event_type: u32,
    pub button: u32,
    pub keycode: u16,
    pub flags: u32,
    /// The text of the key with its modifiers, for a key event.
    pub described: String,
}

/// What the main thread is told.
#[derive(Debug)]
pub enum RecNotice {
    Nothing,
    /// The modifiers have changed.
    Stage,
    /// The recording is complete.
    Finished { mode: RecMode, button: u32, combo: String },
    /// The recording was given up.
    Cancelled,
}

/// What happens to an event. A recording that ends has its tap switched off before
/// its loop is stopped.
#[derive(Debug)]
pub struct TapOutcome {
    pub swallowed: bool,
    pub ends: bool,
    pub notice: RecNotice,
}

/// The state of the recorder.
#[derive(Debug)]
pub struct Recorder {
    pub stage: RecStage,
    pub mode: RecMode,
    pub button: u32,
    pub mods: u32,
    pub desc: String,
    /// The recording thread is told to stop.
    pub cancel: bool,
    /// Bindings are not carried out meanwhile.
    pub recording: bool,
}

/// What the recorder is about.
#[verifier::ext_equal]
pub struct RecorderView {
    pub stage: RecStage,
    pub mode: RecMode,
    pub button: u32,
    pub mods: u32,
    pub desc: Seq<char>,
    pub cancel: bool,
    pub recording: bool,
}

impl View for Recorder {
    type V = RecorderView;

    open spec fn view(&self) -> RecorderView {
        RecorderView {
            stage: self.stage,
            mode: self.mode,
            button: self.button,
            mods: self.mods,
            desc: self.desc@,
            cancel: self.cancel,
            recording: self.recording,
        }
    }
}

impl RecorderView {
    /// Bindings are held back exactly while something is waited for, and what is waited
    /// for fits the purpose.
    pub open spec fn inv(self) -> bool {
        &&& self.recording <==> self.stage != RecStage::Idle
        &&& self.stage == RecStage::WaitingButton ==> self.mode == RecMode::PanelTrigger
        &&& self.stage == RecStage::WaitingCombo ==> self.mode == RecMode::PanelCombo
        &&& self.stage != RecStage::Idle ==> !self.cancel
    }

    /// After the end of a recording nothing of it is left but the button and the
    /// purpose.
    pub open spec fn ended(self) -> RecorderView {
        RecorderView {
            stage: RecStage::Idle,
            mods: 0,
            desc: seq![],
            cancel: true,
            recording: false,
            ..self
        }
    }

    /// At the start of a recording.
    pub open spec fn started(self, mode: RecMode, button: u32) -> RecorderView {
        RecorderView {
            stage: match mode {
                RecMode::PanelTrigger => RecStage::WaitingButton,
                RecMode::PanelCombo => RecStage::WaitingCombo,
            },
            mode,
            button,
            mods: 0,
            desc: seq![],
            cancel: false,
            recording: true,
        }
    }
}

/// Whether an event gives the button that is waited for.
pub open spec fn gives_button(r: RecorderView, e: TapEvent) -> bool {
    e.event_type == OTHER_MOUSE_DOWN && r.stage == RecStage::WaitingButton && e.button >= 2
}

/// Whether an event changes the modifiers of the combination that is waited for.
pub open spec fn gives_modifiers(r: RecorderView, e: TapEvent) -> bool {
    e.event_type == FLAGS_CHANGED && r.stage == RecStage::WaitingCombo
}

/// Whether an event is a key while a combination is waited for.
pub open spec fn gives_key(r: RecorderView, e: TapEvent) -> bool {
    e.event_type == KEY_DOWN && r.stage == RecStage::WaitingCombo
}

/// Whether an event is the escape key without modifiers.
pub open spec fn gives_up(e: TapEvent) -> bool {
    e.keycode == ESCAPE && e.flags & MODIFIER_MASK == 0
}

/// The modifiers among the flags of an event.
pub fn recorded_modifiers(flags: u32) -> (r: u32)
    ensures
        r == flags & MODIFIER_MASK,
{
    flags & MODIFIER_MASK
}

impl Recorder {
    pub fn new() -> (r: Recorder)
        ensures
            r@.inv(),
            r@ == (RecorderView {
                stage: RecStage::Idle,
                mode: RecMode::PanelTrigger,
                button: 0,
                mods: 0,
                desc: seq![],
                cancel: false,
                recording: false,
            }),
    {
        let r = Recorder {
            stage: RecStage::Idle,
            mode: RecMode::PanelTrigger,
            button: 0,
            mods: 0,
            desc: String::new(),
            cancel: false,
            recording: false,
        };
        assert(r@.desc =~= seq![]);
        r
    }

    /// Ends a recording. What was recorded goes out with the notice, and is not kept
    /// for the next one.
    pub fn finish_recording(&mut self, success: bool) -> (r: RecNotice)
        ensures
            final(self)@ == old(self)@.ended(),
            final(self)@.inv(),
            match r {
                RecNotice::Finished { mode, button, combo } => success && mode == old(self).mode
                    && button == old(self).button && combo@ == old(self)@.desc,
                RecNotice::Cancelled => !success,
                _ => false,
            },
    {
        let notice = if success {
            RecNotice::Finished { mode: self.mode, button: self.button, combo: self.desc.clone() }
        } else {
            RecNotice::Cancelled
        };
        self.stage = RecStage::Idle;
        self.mods = 0;
        self.desc = String::new();
        self.cancel = true;
        self.recording = false;
        assert(self@.desc =~= seq![]);
        notice
    }

    /// Gives a recording up from outside, without telling anybody. Tells whether there
    /// was one, whose tap and loop are then stopped.
    pub fn cancel_recording_from_main(&mut self) -> (r: bool)
        requires
            old(self)@.inv(),
        ensures
            final(self)@.inv(),
            r == (old(self).stage != RecStage::Idle),
            final(self)@ == if r {
                old(self)@.ended()
            } else {
                old(self)@
            },
    {
        if self.stage == RecStage::Idle {
            return false;
        }
        self.finish_recording(false);
        true
    }

    /// The tap could not be made: the recording is given up.
    pub fn tap_creation_failed(&mut self) -> (r: RecNotice)
        requires
            old(self)@.inv(),
        ensures
            final(self)@.inv(),
            final(self)@ == (RecorderView {
                stage: RecStage::Idle,
                recording: false,
                ..old(self)@
            }),
            r is Cancelled,
    {
        self.stage = RecStage::Idle;
        self.recording = false;
        RecNotice::Cancelled
    }

    /// Whether the recording thread waits for events, once it has its tap.
    pub fn waits_for_events(&self, taps_allowed: bool) -> (r: bool)
        ensures
            r == (!self.cancel && taps_allowed),
    {
        !self.cancel && taps_allowed
    }

    /// Looks at an event. A button or a key that was waited for ends the recording and
    /// is swallowed; the escape key alone gives up; everything else passes.
    pub fn recording_tap_callback_inner(
        &mut self,
        e: TapEvent,
        tap_was_disabled: bool,
        taps_allowed: bool,
    ) -> (r: TapOutcome)
        requires
            old(self)@.inv(),
        ensures
            final(self)@.inv(),
            ({
                let s = old(self)@;
                let watching = !tap_was_disabled && taps_allowed;
                if watching && gives_button(s, e) {
                    &&& final(self)@ == (RecorderView { button: e.button, ..s }).ended()
                    &&& r.swallowed && r.ends
                    &&& r.notice matches RecNotice::Finished { mode, button, combo }
                    &&& mode == RecMode::PanelTrigger && button == e.button && combo@ == s.desc
                } else if watching && gives_modifiers(s, e) {
                    &&& final(self)@ == (RecorderView { mods: e.flags & MODIFIER_MASK, ..s })
                    &&& !r.swallowed && !r.ends
                    &&& r.notice is Stage
                } else if watching && gives_key(s, e) {
                    &&& final(self)@ == s.ended()
                    &&& r.swallowed && r.ends
                    &&& if gives_up(e) {
                        r.notice is Cancelled
                    } else {
                        &&& r.notice matches RecNotice::Finished { mode, button, combo }
                        &&& mode == RecMode::PanelCombo && button == s.button
                        &&& combo@ == e.described@
                    }
                } else {
                    &&& final(self)@ == s
                    &&& !r.swallowed && !r.ends
                    &&& r.notice is Nothing
                }
            }),
            !tap_was_disabled && taps_allowed && old(self).stage == RecStage::WaitingButton
                && e.event_type == 25 ==> {
                &&& e.button >= 2 ==> r.swallowed && r.ends && final(self).stage == RecStage::Idle
                    && final(self).button == e.button
                &&& e.button < 2 ==> !r.swallowed && !r.ends && final(self)@ == old(self)@
            },
            !tap_was_disabled && taps_allowed && old(self).stage == RecStage::WaitingCombo
                && e.event_type == 10 ==> {
                &&& r.swallowed && r.ends && final(self).stage == RecStage::Idle
                &&& r.notice is Cancelled <==> e.keycode == 53 && e.flags & 0x001E_0000 == 0
            },
            !tap_was_disabled && taps_allowed && old(self).stage == RecStage::WaitingCombo
                && e.event_type == 12 ==> {
                &&& !r.swallowed && !r.ends && final(self).stage == RecStage::WaitingCombo
                &&& final(self).mods == e.flags & 0x001E_0000
            },
            tap_was_disabled || !taps_allowed || old(self).stage == RecStage::Idle ==> {
                &&& !r.swallowed && !r.ends && final(self)@ == old(self)@
            },
    {
        if tap_was_disabled || !taps_allowed {
            return TapOutcome { swallowed: false, ends: false, notice: RecNotice::Nothing };
        }
        if e.event_type == OTHER_MOUSE_DOWN {
            if self.stage == RecStage::WaitingButton && e.button >= 2 {
                self.button = e.button;
                let notice = self.finish_recording(true);
                return TapOutcome { swallowed: true, ends: true, notice };
            }
        } else if e.event_type == FLAGS_CHANGED {
            if self.stage == RecStage::WaitingCombo {
                self.mods = recorded_modifiers(e.flags);
                return TapOutcome { swallowed: false, ends: false, notice: RecNotice::Stage };
            }
        } else if e.event_type == KEY_DOWN {
            if self.stage == RecStage::WaitingCombo {
                if e.keycode == ESCAPE && recorded_modifiers(e.flags) == 0 {
                    let notice = self.finish_recording(false);
                    return TapOutcome { swallowed: true, ends: true, notice };
                }
                self.desc = e.described;
                let notice = self.finish_recording(true);
                return TapOutcome { swallowed: true, ends: true, notice };
            }
        }
        TapOutcome { swallowed: false, ends: false, notice: RecNotice::Nothing }
    }

    /// Starts to record a button; nothing happens while something is being recorded.
    /// Tells whether a recording was started, during which the panel cannot be
    /// confirmed.
    pub fn handle_panel_record_trigger(&mut self) -> (r: bool)
        requires
            old(self)@.inv(),
        ensures
            final(self)@.inv(),
            r == (old(self).stage == RecStage::Idle),
            final(self)@ == if r {
                old(self)@.started(RecMode::PanelTrigger, 0)
            } else {
                old(self)@
            },
    {
        if self.stage != RecStage::Idle {
            return false;
        }
        self.start(RecMode::PanelTrigger, 0);
        true
    }

    /// Starts to record a key combination; nothing happens while something is being
    /// recorded, or before the panel has a button.
    pub fn handle_panel_record_combo(&mut self, panel_button: Option<u32>) -> (r: bool)
        requires
            old(self)@.inv(),
        ensures
            final(self)@.inv(),
            r == (old(self).stage == RecStage::Idle && panel_button is Some),
            final(self)@ == if r {
                old(self)@.started(RecMode::PanelCombo, panel_button->0)
            } else {
                old(self)@
            },
    {
        if self.stage != RecStage::Idle {
            return false;
        }
        match panel_button {
            Some(button) => {
                self.start(RecMode::PanelCombo, button);
                true
            },
            None => false,
        }
    }

    fn start(&mut self, mode: RecMode, button: u32)
        ensures
            final(self)@ == old(self)@.started(mode, button),
            final(self)@.inv(),
    {
        self.button = button;
        self.mods = 0;
        self.desc = String::new();
        self.mode = mode;
        self.stage = match mode {
            RecMode::PanelTrigger => RecStage::WaitingButton,
            RecMode::PanelCombo => RecStage::WaitingCombo,
        };
        self.cancel = false;
        self.recording = true;
        assert(self@.desc =~= seq![]);
    }
}

/// Once a recording has ended, every event that a lingering tap still sees passes.
pub proof fn ended_recordings_pass_everything(s: RecorderView, e: TapEvent)
    ensures
        !gives_button(s.ended(), e),
        !gives_modifiers(s.ended(), e),
        !gives_key(s.ended(), e),
        s.ended().inv(),
{
}

/// Nothing of one recording leaks into the next: however the recorder was left, a
/// start with the same purpose and button gives the same state.
pub proof fn recordings_start_afresh(a: RecorderView, b: RecorderView, mode: RecMode, button: u32)
    ensures
        a.started(mode, button) == b.started(mode, button),
{
}

/// While a button is waited for, the first two buttons, which the window itself is used
/// with, never end the recording, and every other button does. Nothing but a button does.
pub proof fn every_further_button_is_recorded(s: RecorderView, e: TapEvent)
    ensures
        e.event_type == 25 && e.button >= 2 ==> (gives_button(s, e) <==> s.stage
            == RecStage::WaitingButton),
        e.button < 2 ==> !gives_button(s, e),
        e.event_type != 25 ==> !gives_button(s, e),
{
}

/// Which further button it is makes no difference, and neither does anything else about
/// the event.
pub proof fn further_buttons_are_alike(s: RecorderView, a: TapEvent, b: TapEvent)
    requires
        a.event_type == b.event_type,
        a.button > 1,
        b.button > 1,
    ensures
        gives_button(s, a) == gives_button(s, b),
{
}

/// While a combination is waited for, every key ends the recording and every change of
/// the modifiers is noted; at no other time does either.
pub proof fn every_key_ends_a_combination(s: RecorderView, e: TapEvent)
    ensures
        e.event_type == 10 ==> (gives_key(s, e) <==> s.stage == RecStage::WaitingCombo),
        e.event_type != 10 ==> !gives_key(s, e),
        e.event_type == 12 ==> (gives_modifiers(s, e) <==> s.stage == RecStage::WaitingCombo),
        e.event_type != 12 ==> !gives_modifiers(s, e),
{
}

/// An event is at most one of a button, a key and a change of the modifiers.
pub proof fn events_have_one_meaning(s: RecorderView, e: TapEvent)
    ensures
        gives_button(s, e) ==> !gives_key(s, e) && !gives_modifiers(s, e),
        gives_key(s, e) ==> !gives_modifiers(s, e),
{
}

/// Only the escape key gives up, and not together with shift, control, option or
/// command; flags of other keys do not count.
pub proof fn only_bare_escape_gives_up(e: TapEvent)
    ensures
        gives_up(e) ==> e.keycode == 53,
        e.keycode == 53 && e.flags & 0x0002_0000 != 0 ==> !gives_up(e),
        e.keycode == 53 && e.flags & 0x0004_0000 != 0 ==> !gives_up(e),
        e.keycode == 53 && e.flags & 0x0008_0000 != 0 ==> !gives_up(e),
        e.keycode == 53 && e.flags & 0x0010_0000 != 0 ==> !gives_up(e),
        e.keycode == 53 && e.flags & 0x0002_0000 == 0 && e.flags & 0x0004_0000 == 0 && e.flags
            & 0x0008_0000 == 0 && e.flags & 0x0010_0000 == 0 ==> gives_up(e),
{
    let f = e.flags;
    assert((f & 0x001E_0000 == 0) <==> (f & 0x0002_0000 == 0 && f & 0x0004_0000 == 0 && f
        & 0x0008_0000 == 0 && f & 0x0010_0000 == 0)) by (bit_vector);
}

/// A recording starts empty, holds bindings back, and waits for what its purpose asks
/// for; once it has ended, nothing is waited for and bindings are carried out again.
pub proof fn recordings_begin_and_end(s: RecorderView, mode: RecMode, button: u32)
    ensures
        ({
            let on = s.started(mode, button);
            &&& on.recording && !on.cancel
            &&& on.mode == mode && on.button == button
            &&& on.mods == 0 && on.desc.len() == 0
            &&& on.stage == RecStage::WaitingButton <==> mode == RecMode::PanelTrigger
            &&& on.stage == RecStage::WaitingCombo <==> mode == RecMode::PanelCombo
        }),
        ({
            let off = s.ended();
            &&& !off.recording && off.cancel
            &&& off.stage == RecStage::Idle
            &&& off.mode == s.mode && off.button == s.button
            &&& off.mods == 0 && off.desc.len() == 0
        }),
{
}

} // verus!
