use vstd::prelude::*;

verus! {

/// Events sent to a validation delegate. `E` is the validation error.
#[derive(Debug, Clone, PartialEq, Eq)]
pub enum TextBoxEvent<E> {
    /// The textbox began editing.
    Began,
    /// An edit occured which was considered valid by the formatter.
    Changed,
    /// An edit occured which was rejected by the formatter.
    PartiallyInvalid(E),
    /// The user attempted to finish editing, but the input was not valid.
    Invalid(E),
    /// The user finished editing, with valid input.
    Complete,
    /// Editing was cancelled.
    Cancel,
}

/// What reaches a value text box, as far as its editing logic tells apart.
#[derive(Debug, Clone, Copy, PartialEq, Eq, Structural)]
pub enum EditInput {
    /// The command that starts editing.
    BeginEditing,
    /// The command that finishes editing (sent when focus is lost).
    CompleteEditing,
    /// The text component's notification for the tab key.
    Tab,
    /// The text component's notification for shift-tab.
    Backtab,
    /// The text component's notification for the return key.
    Return,
    /// The text component's notification for the escape key.
    Cancel,
    /// A mouse button went down.
    MouseDown,
    /// Anything else; `notification` says whether it is a notification.
    Other { notification: bool },
}

/// What a value text box does with an input.
#[derive(Debug, Clone, Copy, PartialEq, Eq, Structural)]
pub enum EditStep {
    /// Begin editing, and stop.
    Begin,
    /// Try to complete editing; cancel if the text does not parse.
    CompleteOrCancel,
    /// Mark the input handled and try to complete editing; when that
    /// succeeds, move the focus on by `then`.
    Complete { then: FocusMove },
    /// Mark the input handled and cancel editing.
    Cancel,
    /// Hand the input to the inner text box; while editing, validate the
    /// buffer afterwards if it changed and the input is not a notification.
    PassToInner { validate: bool },
    /// Begin editing, then hand the input to the inner text box.
    BeginThenPassToInner,
}

/// Where the focus goes after editing completed.
#[derive(Debug, Clone, Copy, PartialEq, Eq, Structural)]
pub enum FocusMove {
    Next,
    Previous,
    Resign,
}

/// The routing of an input: what a value text box does with it, given
/// whether it is editing.
pub open spec fn edit_step(is_editing: bool, input: EditInput) -> EditStep {
    match input {
        EditInput::BeginEditing => EditStep::Begin,
        EditInput::CompleteEditing if is_editing => EditStep::CompleteOrCancel,
        EditInput::Tab if is_editing => EditStep::Complete { then: FocusMove::Next },
        EditInput::Backtab if is_editing => EditStep::Complete { then: FocusMove::Previous },
        EditInput::Return if is_editing => EditStep::Complete { then: FocusMove::Resign },
        EditInput::Cancel if is_editing => EditStep::Cancel,
        EditInput::MouseDown => if is_editing {
            EditStep::PassToInner { validate: true }
        } else {
            EditStep::BeginThenPassToInner
        },
        EditInput::Other { notification } => EditStep::PassToInner {
            validate: is_editing && !notification,
        },
        _ => EditStep::PassToInner { validate: false },
    }
}

/// Route an input to what the text box does with it (see [`edit_step`]).
pub fn route_edit_input(is_editing: bool, input: EditInput) -> (s: EditStep)
    ensures
        s == edit_step(is_editing, input),
{
    match input {
        EditInput::BeginEditing => EditStep::Begin,
        EditInput::CompleteEditing => {
            if is_editing {
                EditStep::CompleteOrCancel
            } else {
                EditStep::PassToInner { validate: false }
            }
        },
        EditInput::Tab => {
            if is_editing {
                EditStep::Complete { then: FocusMove::Next }
            } else {
                EditStep::PassToInner { validate: false }
            }
        },
        EditInput::Backtab => {
            if is_editing {
                EditStep::Complete { then: FocusMove::Previous }
            } else {
                EditStep::PassToInner { validate: false }
            }
        },
        EditInput::Return => {
            if is_editing {
                EditStep::Complete { then: FocusMove::Resign }
            } else {
                EditStep::PassToInner { validate: false }
            }
        },
        EditInput::Cancel => {
            if is_editing {
                EditStep::Cancel
            } else {
                EditStep::PassToInner { validate: false }
            }
        },
        EditInput::MouseDown => {
            if is_editing {
                EditStep::PassToInner { validate: true }
            } else {
                EditStep::BeginThenPassToInner
            }
        },
        EditInput::Other { notification } => EditStep::PassToInner {
            validate: is_editing && !notification,
        },
    }
}

/// How a value text box treats its input. While editing, tab completes and
/// moves the focus to the next widget, back-tab to the previous one, return
/// completes and gives up focus, escape cancels, the finishing command
/// completes (or cancels), and a press or any other input that is not a
/// notification is handed to the inner text box and validated. While not
/// editing, the starting command begins editing, a press begins editing and
/// then reaches the inner text box, and everything else reaches the inner
/// text box unvalidated. The starting command always begins editing.
pub proof fn law_edit_routing(input: EditInput)
    ensures
        edit_step(true, EditInput::Tab) == (EditStep::Complete { then: FocusMove::Next }),
        edit_step(true, EditInput::Backtab) == (EditStep::Complete { then: FocusMove::Previous }),
        edit_step(true, EditInput::Return) == (EditStep::Complete { then: FocusMove::Resign }),
        edit_step(true, EditInput::Cancel) == EditStep::Cancel,
        edit_step(true, EditInput::CompleteEditing) == EditStep::CompleteOrCancel,
        edit_step(true, EditInput::MouseDown) == (EditStep::PassToInner { validate: true }),
        edit_step(true, EditInput::Other { notification: false }) == (EditStep::PassToInner { validate: true }),
        edit_step(true, EditInput::Other { notification: true }) == (EditStep::PassToInner { validate: false }),
        edit_step(false, EditInput::MouseDown) == EditStep::BeginThenPassToInner,
        edit_step(true, EditInput::BeginEditing) == EditStep::Begin,
        edit_step(false, EditInput::BeginEditing) == EditStep::Begin,
        input != EditInput::BeginEditing && input != EditInput::MouseDown ==> edit_step(false, input) == (
        EditStep::PassToInner { validate: false }),
{
}

/// A focus change reaching a value text box: gaining focus while not
/// editing begins editing, losing focus completes it.
pub fn focus_change_command(is_editing: bool, focused: bool) -> (c: Option<EditInput>)
    ensures
        c == if focused {
            if is_editing {
                None
            } else {
                Some(EditInput::BeginEditing)
            }
        } else {
            Some(EditInput::CompleteEditing)
        },
{
    if focused {
        if is_editing {
            None
        } else {
            Some(EditInput::BeginEditing)
        }
    } else {
        Some(EditInput::CompleteEditing)
    }
}

/// What the formatter said of an edit: a replacement text, a replacement
/// selection, and the error if the edit is not valid.
pub struct Validation<S, E> {
    pub text_change: Option<String>,
    pub selection_change: Option<S>,
    pub error: Option<E>,
}

/// The editing state of a text box that edits a value of type `T` through
/// its text; `S` is the type of a selection.
pub struct ValueTextBox<T, S> {
    /// The text box is editing.
    pub is_editing: bool,
    /// The text being edited.
    pub buffer: String,
    /// The text the inner text box last saw.
    pub old_buffer: String,
    /// The data as this text box last wrote or saw it.
    pub last_known_data: Option<T>,
    /// Edits that fail validation are rejected.
    pub validate_while_editing: bool,
    /// The data is updated during editing, not only when editing completes.
    pub update_data_while_editing: bool,
    /// The selection to apply at the next update.
    pub force_selection: Option<S>,
}

impl<T, S> ValueTextBox<T, S> {
    /// A text box that is not editing, with empty text, that validates while
    /// editing and updates the data only when editing completes.
    pub fn new() -> (b: Self)
        ensures
            !b.is_editing,
            b.buffer@ == Seq::<char>::empty(),
            b.old_buffer@ == Seq::<char>::empty(),
            b.last_known_data is None,
            b.validate_while_editing,
            !b.update_data_while_editing,
            b.force_selection is None,
    {
        ValueTextBox {
            is_editing: false,
            buffer: String::new(),
            old_buffer: String::new(),
            last_known_data: None,
            validate_while_editing: true,
            update_data_while_editing: false,
            force_selection: None,
        }
    }

    /// Builder-style method to set whether or not this text box validates
    /// its contents during editing.
    pub fn validate_while_editing(self, validate: bool) -> (b: Self)
        ensures
            b == (ValueTextBox { validate_while_editing: validate, ..self }),
    {
        ValueTextBox { validate_while_editing: validate, ..self }
    }

    /// Builder-style method to set whether or not this text box updates the
    /// incoming data during editing.
    pub fn update_data_while_editing(self, flag: bool) -> (b: Self)
        ensures
            b == (ValueTextBox { update_data_while_editing: flag, ..self }),
    {
        ValueTextBox { update_data_while_editing: flag, ..self }
    }

    /// The text box was added to the tree: its text is the formatted data.
    pub fn widget_added(&mut self, formatted: String)
        ensures
            final(self).buffer@ == formatted@,
            final(self).old_buffer@ == formatted@,
            final(self).is_editing == old(self).is_editing,
            final(self).last_known_data == old(self).last_known_data,
            final(self).validate_while_editing == old(self).validate_while_editing,
            final(self).update_data_while_editing == old(self).update_data_while_editing,
            final(self).force_selection == old(self).force_selection,
    {
        self.old_buffer = formatted.clone();
        self.buffer = formatted;
    }

    /// Begin editing `data`, whose text for editing is `editing_text`. The
    /// delegate is told that editing began; the caller then asks for an
    /// update pass.
    pub fn begin<E>(&mut self, data: T, editing_text: String) -> (ev: TextBoxEvent<E>)
        ensures
            final(self).is_editing,
            final(self).buffer@ == editing_text@,
            final(self).last_known_data == Some(data),
            final(self).old_buffer == old(self).old_buffer,
            final(self).validate_while_editing == old(self).validate_while_editing,
            final(self).update_data_while_editing == old(self).update_data_while_editing,
            final(self).force_selection == old(self).force_selection,
            ev == TextBoxEvent::<E>::Began,
    {
        self.is_editing = true;
        self.buffer = editing_text;
        self.last_known_data = Some(data);
        TextBoxEvent::Began
    }

    /// Cancel editing: the text goes back to the formatted data. The
    /// delegate is told that editing was cancelled. The caller then asks for
    /// an update pass and gives up the keyboard focus.
    pub fn cancel<E>(&mut self, formatted: String) -> (ev: TextBoxEvent<E>)
        ensures
            !final(self).is_editing,
            final(self).buffer@ == formatted@,
            final(self).old_buffer == old(self).old_buffer,
            final(self).last_known_data == old(self).last_known_data,
            final(self).validate_while_editing == old(self).validate_while_editing,
            final(self).update_data_while_editing == old(self).update_data_while_editing,
            final(self).force_selection == old(self).force_selection,
            ev == TextBoxEvent::<E>::Cancel,
    {
        self.is_editing = false;
        self.buffer = formatted;
        TextBoxEvent::Cancel
    }

    /// Try to complete editing. `parsed` is the formatter's value of the
    /// buffer, with that value formatted again, or its error. On success
    /// the text becomes the formatted value, editing stops, and the new
    /// value is returned for the data (the caller writes it and asks for an
    /// update pass); on failure the state does not change,
    /// and the whole text is to be selected when the text can be written
    /// (`can_write`), so that the user sees what was rejected. The second
    /// part is the event for the delegate, the third whether to select the
    /// whole text.
    pub fn complete<E>(&mut self, parsed: Result<(T, String), E>, can_write: bool) -> (r: (
        Option<T>,
        TextBoxEvent<E>,
        bool,
    ))
        ensures
            r.2 == (parsed is Err && can_write),
            match parsed {
                Ok((value, text)) => {
                    &&& r.0 == Some(value)
                    &&& r.1 == TextBoxEvent::<E>::Complete
                    &&& !final(self).is_editing
                    &&& final(self).buffer@ == text@
                },
                Err(e) => {
                    &&& r.0 is None
                    &&& r.1 == TextBoxEvent::<E>::Invalid(e)
                    &&& final(self).is_editing == old(self).is_editing
                    &&& final(self).buffer == old(self).buffer
                },
            },
            final(self).old_buffer == old(self).old_buffer,
            final(self).last_known_data == old(self).last_known_data,
            final(self).validate_while_editing == old(self).validate_while_editing,
            final(self).update_data_while_editing == old(self).update_data_while_editing,
            final(self).force_selection == old(self).force_selection,
    {
        match parsed {
            Ok((value, text)) => {
                self.buffer = text;
                self.is_editing = false;
                (Some(value), TextBoxEvent::Complete, false)
            },
            Err(e) => (None, TextBoxEvent::Invalid(e), can_write),
        }
    }

    /// Whether the inner text box changed the text, so that the edit is to
    /// be validated.
    pub fn buffer_changed(&self) -> (b: bool)
        ensures
            b == (self.buffer@ != self.old_buffer@),
    {
        !(self.buffer == self.old_buffer)
    }

    /// Apply the formatter's verdict on an edit. With validation while
    /// editing, a replacement text is taken when it validates itself
    /// (`replacement_valid`), an invalid edit without replacement goes back
    /// to the text before the edit, and the selection to force is the
    /// replacement selection, or after an invalid edit the selection before
    /// it (`previous_selection`). Returns the event for the delegate and
    /// whether the data is to be updated from the new text now.
    pub fn apply_validation<E>(
        &mut self,
        validation: Validation<S, E>,
        replacement_valid: bool,
        previous_selection: Option<S>,
    ) -> (r: (TextBoxEvent<E>, bool))
        ensures
            r.0 == match validation.error {
                Some(e) => TextBoxEvent::PartiallyInvalid(e),
                None => TextBoxEvent::<E>::Changed,
            },
            r.1 == (old(self).validate_while_editing && old(self).update_data_while_editing
                && validation.error is None),
            old(self).validate_while_editing ==> {
                &&& final(self).buffer@ == match validation.text_change {
                    Some(t) => if replacement_valid {
                        t@
                    } else {
                        old(self).buffer@
                    },
                    None => if validation.error is Some {
                        old(self).old_buffer@
                    } else {
                        old(self).buffer@
                    },
                }
                &&& final(self).force_selection == match validation.selection_change {
                    Some(s) => Some(s),
                    None => if validation.error is Some {
                        previous_selection
                    } else {
                        None
                    },
                }
            },
            !old(self).validate_while_editing ==> final(self).buffer == old(self).buffer
                && final(self).force_selection == old(self).force_selection,
            final(self).is_editing == old(self).is_editing,
            final(self).old_buffer == old(self).old_buffer,
            final(self).last_known_data == old(self).last_known_data,
            final(self).validate_while_editing == old(self).validate_while_editing,
            final(self).update_data_while_editing == old(self).update_data_while_editing,
    {
        let is_err = validation.error.is_some();
        let mut update_data = false;
        if self.validate_while_editing {
            let new_buf = match validation.text_change {
                Some(t) => {
                    if replacement_valid {
                        Some(t)
                    } else {
                        None
                    }
                },
                None => {
                    if is_err {
                        Some(self.old_buffer.clone())
                    } else {
                        None
                    }
                },
            };
            let new_sel = match validation.selection_change {
                Some(s) => Some(s),
                None => {
                    if is_err {
                        previous_selection
                    } else {
                        None
                    }
                },
            };
            match new_buf {
                Some(b) => {
                    self.buffer = b;
                },
                None => {},
            }
            self.force_selection = new_sel;
            update_data = self.update_data_while_editing && !is_err;
        }
        let ev = match validation.error {
            Some(e) => TextBoxEvent::PartiallyInvalid(e),
            None => TextBoxEvent::Changed,
        };
        (ev, update_data)
    }

    /// The data was updated from the text during editing.
    pub fn record_data(&mut self, data: T)
        ensures
            final(self).last_known_data == Some(data),
            final(self).is_editing == old(self).is_editing,
            final(self).buffer == old(self).buffer,
            final(self).old_buffer == old(self).old_buffer,
            final(self).validate_while_editing == old(self).validate_while_editing,
            final(self).update_data_while_editing == old(self).update_data_while_editing,
            final(self).force_selection == old(self).force_selection,
    {
        self.last_known_data = Some(data);
    }

    /// An update pass. `changed_by_us` says whether the data is the data
    /// this text box last knew; `reformatted` holds the formatted new data
    /// when the data changed; `env_changed` whether the environment
    /// changed. Returns the selection to force, if any, and the text the
    /// inner text box is to be updated from (to the current text), if it is
    /// to be updated.
    ///
    /// While editing, data that changed elsewhere is ignored. Otherwise new
    /// data replaces the text when it formats differently.
    pub fn update(&mut self, changed_by_us: bool, reformatted: Option<String>, env_changed: bool) -> (r: (
        Option<S>,
        Option<String>,
    ))
        ensures
            r.0 == old(self).force_selection,
            final(self).force_selection is None,
            old(self).is_editing ==> {
                &&& final(self).buffer == old(self).buffer
                &&& if changed_by_us {
                    &&& r.1 == Some(old(self).old_buffer)
                    &&& final(self).old_buffer@ == old(self).buffer@
                } else {
                    &&& r.1 is None
                    &&& final(self).old_buffer == old(self).old_buffer
                }
            },
            !old(self).is_editing ==> {
                let (buf, prev) = match reformatted {
                    Some(t) => if t@ != old(self).buffer@ {
                        (t@, old(self).buffer@)
                    } else {
                        (old(self).buffer@, old(self).old_buffer@)
                    },
                    None => (old(self).buffer@, old(self).old_buffer@),
                };
                &&& final(self).buffer@ == buf
                &&& final(self).old_buffer@ == buf
                &&& match r.1 {
                    Some(from) => if prev != buf {
                        from@ == prev
                    } else {
                        env_changed && from@ == buf
                    },
                    None => prev == buf && !env_changed,
                }
            },
            final(self).is_editing == old(self).is_editing,
            final(self).last_known_data == old(self).last_known_data,
            final(self).validate_while_editing == old(self).validate_while_editing,
            final(self).update_data_while_editing == old(self).update_data_while_editing,
    {
        let sel = self.force_selection.take();
        if self.is_editing {
            if changed_by_us {
                let from = self.old_buffer.clone();
                self.old_buffer = self.buffer.clone();
                (sel, Some(from))
            } else {
                (sel, None)
            }
        } else {
            match reformatted {
                Some(t) => {
                    if !(t == self.buffer) {
                        let mut t = t;
                        std::mem::swap(&mut self.buffer, &mut t);
                        self.old_buffer = t;
                    }
                },
                None => {},
            }
            if !(self.old_buffer == self.buffer) {
                let from = self.old_buffer.clone();
                self.old_buffer = self.buffer.clone();
                (sel, Some(from))
            } else if env_changed {
                (sel, Some(self.buffer.clone()))
            } else {
                (sel, None)
            }
        }
    }
}

} // verus!
