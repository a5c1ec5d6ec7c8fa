use vstd::prelude::*;
use vstd::string::StrSliceExecFns;
use crate::ids::INVALID_TIMER;

verus! {

/// How long the cursor stays on or off while it blinks, in milliseconds.
pub const CURSOR_BLINK_MILLIS: u64 = 500;

/// The notifications of the inner text component that a text box handles.
#[derive(Debug, Clone, Copy, PartialEq, Eq, Structural)]
pub enum TextNotification {
    /// Scroll so that the selection is visible; `after_edit` says whether the
    /// text changed, so that the scroll must wait for the next layout.
    ScrollTo { after_edit: bool },
    Tab,
    Backtab,
    Cancel,
    Other,
}

/// Where a notification sends the focus.
#[derive(Debug, Clone, Copy, PartialEq, Eq, Structural)]
pub enum FocusRequest {
    Next,
    Previous,
    Resign,
}

/// What a text box does with a notification.
#[derive(Debug, Clone, Copy, PartialEq, Eq, Structural)]
pub struct NotificationActions {
    /// Ask for a layout and scroll to the selection after it.
    pub scroll_after_layout: bool,
    /// Scroll to the selection now.
    pub scroll_now: bool,
    pub focus: Option<FocusRequest>,
    pub request_paint: bool,
    pub set_handled: bool,
}

/// The actions for a notification; tab and back-tab move the focus only
/// when the text box handles tab notifications.
pub open spec fn notification_actions(n: TextNotification, handles_tab: bool) -> NotificationActions {
    let none = NotificationActions {
        scroll_after_layout: false,
        scroll_now: false,
        focus: None,
        request_paint: false,
        set_handled: false,
    };
    let handled = NotificationActions { request_paint: true, set_handled: true, ..none };
    match n {
        TextNotification::ScrollTo { after_edit } => NotificationActions {
            scroll_after_layout: after_edit,
            scroll_now: !after_edit,
            ..handled
        },
        TextNotification::Tab => if handles_tab {
            NotificationActions { focus: Some(FocusRequest::Next), ..handled }
        } else {
            none
        },
        TextNotification::Backtab => if handles_tab {
            NotificationActions { focus: Some(FocusRequest::Previous), ..handled }
        } else {
            none
        },
        TextNotification::Cancel => NotificationActions { focus: Some(FocusRequest::Resign), ..handled },
        TextNotification::Other => none,
    }
}

/// Decide what a text box does with a notification (see
/// [`notification_actions`]).
pub fn handle_notification(n: TextNotification, handles_tab: bool) -> (a: NotificationActions)
    ensures
        a == notification_actions(n, handles_tab),
{
    let none = NotificationActions {
        scroll_after_layout: false,
        scroll_now: false,
        focus: None,
        request_paint: false,
        set_handled: false,
    };
    let handled = NotificationActions { request_paint: true, set_handled: true, ..none };
    match n {
        TextNotification::ScrollTo { after_edit } => NotificationActions {
            scroll_after_layout: after_edit,
            scroll_now: !after_edit,
            ..handled
        },
        TextNotification::Tab => {
            if handles_tab {
                NotificationActions { focus: Some(FocusRequest::Next), ..handled }
            } else {
                none
            }
        },
        TextNotification::Backtab => {
            if handles_tab {
                NotificationActions { focus: Some(FocusRequest::Previous), ..handled }
            } else {
                none
            }
        },
        TextNotification::Cancel => NotificationActions { focus: Some(FocusRequest::Resign), ..handled },
        TextNotification::Other => none,
    }
}

/// The blinking cursor of a text box and how it got focus.
#[derive(Debug, Clone, Copy, PartialEq, Eq, Structural)]
pub struct CursorBlink {
    pub cursor_on: bool,
    /// The blink timer; `INVALID_TIMER` when none runs.
    pub cursor_timer: u64,
    /// A click caused the text box to gain focus.
    pub was_focused_from_click: bool,
}

/// What a press on a text box does.
#[derive(Debug, Clone, Copy, PartialEq, Eq, Structural)]
pub struct PressActions {
    pub request_focus: bool,
    /// Start the blink timer and record its token with `reset_blink`.
    pub start_blink: bool,
    pub set_handled: bool,
}

/// What a focus change of a text box does.
#[derive(Debug, Clone, Copy, PartialEq, Eq, Structural)]
pub struct FocusActions {
    /// Select the whole text.
    pub select_all: bool,
    /// Collapse the selection to its active end.
    pub collapse_selection: bool,
    /// Scroll back to the start of the text.
    pub scroll_to_start: bool,
    /// Start the blink timer and record its token with `reset_blink`.
    pub start_blink: bool,
    pub request_paint: bool,
    /// Scroll the text box into view.
    pub scroll_to_view: bool,
}

impl CursorBlink {
    /// The cursor is off and no timer runs.
    pub fn new() -> (c: Self)
        ensures
            c == (CursorBlink { cursor_on: false, cursor_timer: INVALID_TIMER, was_focused_from_click: false }),
    {
        CursorBlink { cursor_on: false, cursor_timer: INVALID_TIMER, was_focused_from_click: false }
    }

    /// The blink timer was started with this token: the cursor shows.
    pub fn reset_blink(&mut self, token: u64)
        ensures
            *final(self) == (CursorBlink { cursor_on: true, cursor_timer: token, ..*old(self) }),
    {
        self.cursor_on = true;
        self.cursor_timer = token;
    }

    /// A mouse button went down on a text box whose text can be written.
    /// `focus_click` says whether the click is the one that focuses the
    /// window. An enabled text box takes focus from an ordinary click and
    /// remembers that a click focused it; a focusing click is only marked
    /// handled.
    pub fn mouse_down(&mut self, disabled: bool, focus_click: bool) -> (a: PressActions)
        ensures
            !disabled && !focus_click ==> *final(self) == (CursorBlink { was_focused_from_click: true, ..*old(self) })
                && a == (PressActions { request_focus: true, start_blink: true, set_handled: false }),
            !disabled && focus_click ==> *final(self) == *old(self) && a == (PressActions {
                request_focus: false,
                start_blink: false,
                set_handled: true,
            }),
            disabled ==> *final(self) == *old(self) && a == (PressActions {
                request_focus: false,
                start_blink: false,
                set_handled: false,
            }),
    {
        if disabled {
            PressActions { request_focus: false, start_blink: false, set_handled: false }
        } else if !focus_click {
            self.was_focused_from_click = true;
            PressActions { request_focus: true, start_blink: true, set_handled: false }
        } else {
            PressActions { request_focus: false, start_blink: false, set_handled: true }
        }
    }

    /// A timer fired. While enabled, the blink timer of a focused text box
    /// toggles the cursor and starts again; a disabled text box hides its
    /// cursor. Returns whether to repaint and whether to start the timer.
    pub fn timer(&mut self, token: u64, disabled: bool, has_focus: bool) -> (r: (bool, bool))
        ensures
            !disabled && token == old(self).cursor_timer && has_focus ==> *final(self) == (CursorBlink {
                cursor_on: !old(self).cursor_on,
                ..*old(self)
            }) && r == (true, true),
            !disabled && !(token == old(self).cursor_timer && has_focus) ==> *final(self) == *old(self) && r
                == (false, false),
            disabled ==> *final(self) == (CursorBlink { cursor_on: false, ..*old(self) }) && r == (
                old(self).cursor_on,
                false,
            ),
    {
        if !disabled {
            if token == self.cursor_timer && has_focus {
                self.cursor_on = !self.cursor_on;
                (true, true)
            } else {
                (false, false)
            }
        } else if self.cursor_on {
            self.cursor_on = false;
            (true, false)
        } else {
            (false, false)
        }
    }

    /// The text box gained focus. A single-line text box whose text can be
    /// written selects all of it, unless a click gave it focus. The cursor
    /// starts blinking, and the text box is scrolled into view.
    pub fn focus_gained(&mut self, can_write: bool, multiline: bool) -> (a: FocusActions)
        ensures
            a == (FocusActions {
                select_all: can_write && !multiline && !old(self).was_focused_from_click,
                collapse_selection: false,
                scroll_to_start: false,
                start_blink: true,
                request_paint: true,
                scroll_to_view: true,
            }),
            *final(self) == (CursorBlink { was_focused_from_click: false, ..*old(self) }),
    {
        let select_all = can_write && !multiline && !self.was_focused_from_click;
        self.was_focused_from_click = false;
        FocusActions {
            select_all,
            collapse_selection: false,
            scroll_to_start: false,
            start_blink: true,
            request_paint: true,
            scroll_to_view: true,
        }
    }

    /// The text box lost focus. On the platforms that keep no selection in
    /// unfocused single-line fields (`collapses`), the selection collapses; a
    /// single-line text box scrolls back to its start; the blink timer stops.
    pub fn focus_lost(&mut self, can_write: bool, multiline: bool, collapses: bool) -> (a: FocusActions)
        ensures
            a == (FocusActions {
                select_all: false,
                collapse_selection: can_write && collapses && !multiline,
                scroll_to_start: !multiline,
                start_blink: false,
                request_paint: true,
                scroll_to_view: false,
            }),
            *final(self) == (CursorBlink {
                cursor_timer: INVALID_TIMER,
                was_focused_from_click: false,
                ..*old(self)
            }),
    {
        self.cursor_timer = INVALID_TIMER;
        self.was_focused_from_click = false;
        FocusActions {
            select_all: false,
            collapse_selection: can_write && collapses && !multiline,
            scroll_to_start: !multiline,
            start_blink: false,
            request_paint: true,
            scroll_to_view: false,
        }
    }

    /// Whether the cursor is drawn; where the platform hides the cursor over a
    /// selection (`only_on_caret`), it is drawn only when the selection is a
    /// caret.
    pub fn should_draw_cursor(&self, only_on_caret: bool, selection_is_caret: bool) -> (b: bool)
        ensures
            b == (self.cursor_on && (!only_on_caret || selection_is_caret)),
    {
        if only_on_caret {
            self.cursor_on && selection_is_caret
        } else {
            self.cursor_on
        }
    }
}

/// The first line of `s`: the text before the first line feed, without the
/// carriage return of a "\r\n" ending; the whole text when it holds no line
/// feed.
pub open spec fn first_line(s: Seq<char>) -> Seq<char> {
    if exists|i: int| 0 <= i < s.len() && s[i] == '\n' {
        let i = choose|i: int| 0 <= i < s.len() && s[i] == '\n' && forall|j: int| 0 <= j < i ==> s[j] != '\n';
        if i > 0 && s[i - 1] == '\r' {
            s.subrange(0, i - 1)
        } else {
            s.subrange(0, i)
        }
    } else {
        s
    }
}

/// The text that a paste inserts: all of it in a multi-line text box, only
/// its first line in a single-line one; nothing when that is empty.
pub fn paste_text(multiline: bool, pasted: &str) -> (r: Option<String>)
    ensures
        ({
            let t = if multiline { pasted@ } else { first_line(pasted@) };
            &&& r is None <==> t.len() == 0
            &&& r matches Some(s) ==> s@ == t
        }),
{
    let len = pasted.unicode_len();
    let mut end = len;
    if !multiline {
        let mut i: usize = 0;
        let mut found = false;
        while i < len
            invariant_except_break
                !found,
            invariant
                len == pasted@.len(),
                i <= len,
                forall|j: int| 0 <= j < i ==> pasted@[j] != '\n',
            ensures
                found ==> i < len && pasted@[i as int] == '\n',
                !found ==> i == len,
            decreases len - i,
        {
            if pasted.get_char(i) == '\n' {
                found = true;
                break;
            }
            i = i + 1;
        }
        if found {
            proof {
                let s = pasted@;
                assert(s[i as int] == '\n');
                let k = choose|k: int| 0 <= k < s.len() && s[k] == '\n' && forall|j: int| 0 <= j < k ==> s[j] != '\n';
                assert(k == i as int) by {
                    if k < i as int {
                        assert(s[k] != '\n');
                    } else if k > i as int {
                        assert(s[i as int] != '\n');
                    }
                }
            }
            end = if i > 0 && pasted.get_char(i - 1) == '\r' {
                i - 1
            } else {
                i
            };
        } else {
            proof {
                assert(!exists|k: int| 0 <= k < pasted@.len() && pasted@[k] == '\n');
            }
        }
    }
    if end == 0 {
        None
    } else {
        let t = pasted.substring_char(0, end);
        proof {
            assert(multiline ==> t@ =~= pasted@);
        }
        Some(t.to_owned())
    }
}

/// What each notification does. With tab notifications handled, tab moves
/// the focus to the next widget and back-tab to the previous one; without,
/// both are left to others. Escape gives up focus. A request to scroll to
/// the selection waits for the next layout after an edit and scrolls at once
/// otherwise. Everything the text box handles is repainted and marked
/// handled; what it leaves alone, it does not touch.
pub proof fn law_notifications(n: TextNotification, handles_tab: bool)
    ensures
        notification_actions(TextNotification::Tab, true).focus == Some(FocusRequest::Next),
        notification_actions(TextNotification::Backtab, true).focus == Some(FocusRequest::Previous),
        notification_actions(TextNotification::Cancel, handles_tab).focus == Some(FocusRequest::Resign),
        ({
            let a = notification_actions(n, handles_tab);
            let handled = match n {
                TextNotification::Tab | TextNotification::Backtab => handles_tab,
                TextNotification::Other => false,
                _ => true,
            };
            &&& a.set_handled == handled
            &&& a.request_paint == handled
            &&& (a.focus is Some) == (handled && !(n is ScrollTo))
            &&& (a.scroll_after_layout || a.scroll_now) == (n is ScrollTo)
            &&& n matches TextNotification::ScrollTo { after_edit } ==> a.scroll_after_layout == after_edit
                && a.scroll_now == !after_edit
        }),
{
}

/// The first line of a text holds no line feed, starts the text, and is the
/// whole text when that holds no line feed; otherwise it ends right before
/// the first line feed, or before the carriage return that precedes it.
pub proof fn law_first_line(s: Seq<char>)
    ensures
        ({
            let f = first_line(s);
            &&& f.len() <= s.len()
            &&& f == s.subrange(0, f.len() as int)
            &&& forall|j: int| 0 <= j < f.len() ==> f[j] != '\n'
            &&& (forall|j: int| 0 <= j < s.len() ==> s[j] != '\n') ==> f == s
            &&& (exists|j: int| 0 <= j < s.len() && s[j] == '\n') ==> {
                ||| f.len() < s.len() && s[f.len() as int] == '\n' && (f.len() == 0 || s[f.len() - 1] != '\r')
                ||| f.len() + 1 < s.len() && s[f.len() as int] == '\r' && s[f.len() + 1int] == '\n'
            }
        }),
{
    if exists|i: int| 0 <= i < s.len() && s[i] == '\n' {
        let w = choose|i: int| 0 <= i < s.len() && s[i] == '\n';
        lemma_first_newline_exists(s, w);
    }
}

/// A text with a line feed at `w` has a first line feed.
proof fn lemma_first_newline_exists(s: Seq<char>, w: int)
    requires
        0 <= w < s.len(),
        s[w] == '\n',
    ensures
        exists|i: int| 0 <= i < s.len() && s[i] == '\n' && forall|j: int| 0 <= j < i ==> s[j] != '\n',
    decreases w,
{
    if exists|j: int| 0 <= j < w && s[j] == '\n' {
        let j = choose|j: int| 0 <= j < w && s[j] == '\n';
        lemma_first_newline_exists(s, j);
    } else {
        assert(forall|j: int| 0 <= j < w ==> s[j] != '\n');
    }
}

} // verus!
