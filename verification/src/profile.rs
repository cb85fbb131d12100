//! What Enter does in the profile, passphrase and name input fields: the
//! command handed to the profile updater, or why nothing is submitted.

use vstd::prelude::*;
use crate::strings::{trim_of, trim_end_of, trim_start_of, trimmed_chars, prefixed, same_text, chars_of, string_from_range};
use crate::chars::{is_control, spec_is_control};
use crate::text_edit::{TextEditing, EditView, backspace_of, type_char_of};

verus! {

/// Minimum length, in UTF-8 bytes, of a recovery key submitted with Enter.
pub const RECOVERY_KEY_MIN_BYTES: usize = 40;

/// The updater command `e2e_setup:{passphrase}` for the trimmed passphrase,
/// when it is not empty and the field is on a passphrase page.
pub fn passphrase_submit(text: &str, on_passphrase_page: bool) -> (r: Option<String>)
    ensures
        match r {
            Some(c) => trim_of(text@).len() > 0 && on_passphrase_page && c@ == "e2e_setup:"@
                + trim_of(text@),
            None => !(trim_of(text@).len() > 0 && on_passphrase_page),
        },
{
    let t = trimmed_chars(text);
    if t.len() > 0 && on_passphrase_page {
        Some(prefixed("e2e_setup:", &t))
    } else {
        None
    }
}

/// The updater command `recovery_unlock:{key}` when the key is at least
/// [`RECOVERY_KEY_MIN_BYTES`] bytes long.
pub fn recovery_submit(text: &str) -> (r: Option<String>)
    ensures
        match r {
            Some(c) => text.len() >= RECOVERY_KEY_MIN_BYTES && c@ == "recovery_unlock:"@
                + text@,
            None => text.len() < RECOVERY_KEY_MIN_BYTES,
        },
{
    if text.len() >= RECOVERY_KEY_MIN_BYTES {
        Some(prefixed("recovery_unlock:", &chars_of(text)))
    } else {
        None
    }
}

/// The outcome of Enter in the confirm-passphrase field.
#[derive(Debug, Clone, PartialEq, Eq)]
pub enum ConfirmOutcome {
    /// The updater command `set_new_passphrase:{passphrase}`.
    Submit(String),
    /// Show "Passphrases do not match".
    Mismatch,
    /// The passphrases match but are too short: nothing happens.
    TooShort,
}

/// Enter in the confirm field submits when both entries match and the
/// passphrase has at least `min_bytes` bytes; a mismatch is reported first.
pub fn confirm_passphrase_submit(passphrase: &str, confirm: &str, min_bytes: usize) -> (r:
    ConfirmOutcome)
    ensures
        match r {
            ConfirmOutcome::Submit(c) => passphrase.len() >= min_bytes && confirm@
                == passphrase@ && c@ == "set_new_passphrase:"@ + passphrase@,
            ConfirmOutcome::Mismatch => confirm@ != passphrase@,
            ConfirmOutcome::TooShort => confirm@ == passphrase@ && passphrase.len()
                < min_bytes,
        },
{
    let same = same_text(confirm, passphrase);
    if passphrase.len() >= min_bytes && same {
        ConfirmOutcome::Submit(prefixed("set_new_passphrase:", &chars_of(passphrase)))
    } else if !same {
        ConfirmOutcome::Mismatch
    } else {
        ConfirmOutcome::TooShort
    }
}

/// The name entered in a name field with surrounding whitespace removed,
/// unless nothing is left; used by the watchlist-group, profile-name and
/// rename fields, which ignore Enter on a blank name.
pub fn entered_name(text: &str) -> (r: Option<String>)
    ensures
        match r {
            Some(n) => trim_of(text@).len() > 0 && n@ == trim_of(text@),
            None => trim_of(text@).len() == 0,
        },
{
    let t = trimmed_chars(text);
    if t.len() > 0 {
        let n = string_from_range(&t, 0, t.len());
        assert(t@.subrange(0, t@.len() as int) =~= t@);
        Some(n)
    } else {
        None
    }
}

/// The updater command `{verb}:{name}` for a non-blank entered name, such
/// as `profile_rename:{name}` or `profile_create:{name}`.
pub fn name_command(verb: &str, text: &str) -> (r: Option<String>)
    ensures
        match r {
            Some(c) => trim_of(text@).len() > 0 && c@ == verb@ + seq![':'] + trim_of(text@),
            None => trim_of(text@).len() == 0,
        },
{
    let t = trimmed_chars(text);
    if t.len() > 0 {
        let mut body: Vec<char> = Vec::new();
        body.push(':');
        let mut i: usize = 0;
        while i < t.len()
            invariant
                i <= t@.len(),
                body@ == seq![':'] + t@.take(i as int),
            decreases t@.len() - i,
        {
            body.push(t[i]);
            assert(t@.take(i as int + 1) =~= t@.take(i as int).push(t@[i as int]));
            i = i + 1;
        }
        assert(t@.take(t@.len() as int) =~= t@);
        let c = prefixed(verb, &body);
        assert(verb@ + seq![':'] + t@ =~= verb@ + (seq![':'] + t@));
        Some(c)
    } else {
        None
    }
}

/// The page of the profile screens a passphrase field sits on.
#[derive(Debug, Clone, Copy, PartialEq, Eq)]
pub enum PassphrasePage {
    /// A page where Enter submits the passphrase: unlock, create, the sync
    /// tab of the settings, the welcome wizard, the vault unlock.
    Submits,
    /// Any other page of the profile manager, the set-new-passphrase page
    /// among them: Enter there only leaves the field.
    Other,
}

/// The new-passphrase field with its focus and the error shown under it.
#[derive(Debug, Clone)]
pub struct PassphraseInput {
    pub editing: TextEditing,
    pub focused: bool,
    pub confirm_focused: bool,
    /// An error is shown; typing clears it so the user can retry.
    pub error_shown: bool,
}

/// The abstract state of a passphrase field.
pub struct PassphraseView {
    pub editing: EditView,
    pub focused: bool,
    pub confirm_focused: bool,
    pub error_shown: bool,
}

impl View for PassphraseInput {
    type V = PassphraseView;

    open spec fn view(&self) -> PassphraseView {
        PassphraseView {
            editing: self.editing@,
            focused: self.focused,
            confirm_focused: self.confirm_focused,
            error_shown: self.error_shown,
        }
    }
}

/// A typed character in the focused new-passphrase field, and the
/// updater command it submits. Enter submits the trimmed passphrase on a
/// submitting page, clearing the field, and leaves the field. Tab in the
/// welcome wizard moves to the confirm field; Escape leaves the field;
/// backspace and printable characters edit it and clear the error.
pub open spec fn passphrase_char_of(s: PassphraseView, c: char, page: PassphrasePage, wizard: bool) -> (
    PassphraseView,
    Option<Seq<char>>,
) {
    if c == '\r' || c == '\n' {
        let t = trim_of(s.editing.text);
        if page == PassphrasePage::Submits && t.len() > 0 {
            (
                PassphraseView {
                    editing: EditView { text: Seq::empty(), cursor: 0, anchor: None },
                    focused: false,
                    ..s
                },
                Some("e2e_setup:"@ + t),
            )
        } else {
            (PassphraseView { focused: false, ..s }, None)
        }
    } else if c == '\t' {
        if wizard {
            (PassphraseView { focused: false, confirm_focused: true, ..s }, None)
        } else {
            (s, None)
        }
    } else if c == '\u{1b}' {
        (PassphraseView { focused: false, ..s }, None)
    } else if c == '\u{8}' {
        (PassphraseView { editing: backspace_of(s.editing), error_shown: false, ..s }, None)
    } else if !spec_is_control(c) {
        (PassphraseView { editing: type_char_of(s.editing, c), error_shown: false, ..s }, None)
    } else {
        (s, None)
    }
}

impl PassphraseInput {
    /// Handle a character typed into the focused new-passphrase field;
    /// returns the updater command Enter submits, if any.
    pub fn type_char(&mut self, c: char, page: PassphrasePage, wizard: bool) -> (cmd: Option<String>)
        requires
            old(self).editing.cursor < usize::MAX,
        ensures
            (final(self)@, match cmd {
                Some(x) => Some(x@),
                None => None,
            }) == passphrase_char_of(old(self)@, c, page, wizard),
    {
        if c == '\r' || c == '\n' {
            let on_page = match page {
                PassphrasePage::Submits => true,
                _ => false,
            };
            let text = self.editing.text_string();
            let cmd = passphrase_submit(text.as_str(), on_page);
            if cmd.is_some() {
                let empty: Vec<char> = Vec::new();
                assert(empty@ =~= Seq::<char>::empty());
                self.editing = TextEditing { text: empty, cursor: 0, selection_start: None };
            }
            self.focused = false;
            return cmd;
        }
        if c == '\t' {
            if wizard {
                self.focused = false;
                self.confirm_focused = true;
            }
            return None;
        }
        if c == '\u{1b}' {
            self.focused = false;
            return None;
        }
        if c == '\u{8}' {
            self.error_shown = false;
            self.editing.backspace();
            return None;
        }
        if !is_control(c) {
            self.error_shown = false;
            self.editing.type_char(c);
        }
        None
    }
}

/// A submitted passphrase is gone from the field: after Enter submits,
/// the field is empty and unfocused, and a second Enter submits nothing.
pub proof fn law_submitted_passphrase_is_cleared(s: PassphraseView, wizard: bool)
    requires
        passphrase_char_of(s, '\r', PassphrasePage::Submits, wizard).1 is Some,
    ensures
        ({
            let t = passphrase_char_of(s, '\r', PassphrasePage::Submits, wizard).0;
            &&& t.editing.text.len() == 0
            &&& !t.focused
            &&& passphrase_char_of(t, '\r', PassphrasePage::Submits, wizard).1 is None
        }),
{
    let t = passphrase_char_of(s, '\r', PassphrasePage::Submits, wizard).0;
    assert(trim_end_of(t.editing.text) == t.editing.text);
    assert(trim_start_of(t.editing.text) == t.editing.text);
}

/// The profile-screen inputs a text-selection drag can start in.
#[derive(Debug, Clone, Copy, PartialEq, Eq)]
pub enum ProfileDragField {
    /// `e2e_passphrase_input`, `wizard_passphrase_input`.
    Passphrase,
    /// `wizard_profile_name_input`, `profile_mgr:name_input`.
    ProfileName,
    /// `profile_mgr:recovery_key_input`, `profile_mgr:recovery_key_display`.
    RecoveryKey,
    /// `profile_mgr:new_passphrase_input`.
    SetNewPassphrase,
    /// `profile_mgr:confirm_passphrase_input`, `wizard_confirm_passphrase_input`,
    /// `profile_mgr:create_confirm_passphrase_input`.
    ConfirmPassphrase,
    /// Any other input.
    Unknown,
}

/// The input named by widget id `id`.
pub open spec fn profile_drag_field_of(id: Seq<char>) -> ProfileDragField {
    if id == "e2e_passphrase_input"@ || id == "wizard_passphrase_input"@ {
        ProfileDragField::Passphrase
    } else if id == "wizard_profile_name_input"@ || id == "profile_mgr:name_input"@ {
        ProfileDragField::ProfileName
    } else if id == "profile_mgr:recovery_key_input"@ || id == "profile_mgr:recovery_key_display"@ {
        ProfileDragField::RecoveryKey
    } else if id == "profile_mgr:new_passphrase_input"@ {
        ProfileDragField::SetNewPassphrase
    } else if id == "profile_mgr:confirm_passphrase_input"@ || id == "wizard_confirm_passphrase_input"@
        || id == "profile_mgr:create_confirm_passphrase_input"@ {
        ProfileDragField::ConfirmPassphrase
    } else {
        ProfileDragField::Unknown
    }
}

/// Name the input of widget id `id`.
pub fn profile_drag_field(id: &str) -> (r: ProfileDragField)
    ensures
        r == profile_drag_field_of(id@),
{
    if same_text(id, "e2e_passphrase_input") || same_text(id, "wizard_passphrase_input") {
        ProfileDragField::Passphrase
    } else if same_text(id, "wizard_profile_name_input") || same_text(id, "profile_mgr:name_input") {
        ProfileDragField::ProfileName
    } else if same_text(id, "profile_mgr:recovery_key_input") || same_text(
        id,
        "profile_mgr:recovery_key_display",
    ) {
        ProfileDragField::RecoveryKey
    } else if same_text(id, "profile_mgr:new_passphrase_input") {
        ProfileDragField::SetNewPassphrase
    } else if same_text(id, "profile_mgr:confirm_passphrase_input") || same_text(
        id,
        "wizard_confirm_passphrase_input",
    ) || same_text(id, "profile_mgr:create_confirm_passphrase_input") {
        ProfileDragField::ConfirmPassphrase
    } else {
        ProfileDragField::Unknown
    }
}

/// The inputs of the profile manager and welcome wizard.
#[derive(Debug, Clone)]
pub struct ProfileInputs {
    pub new_passphrase: TextEditing,
    pub profile_name: TextEditing,
    pub confirm_passphrase: TextEditing,
    pub recovery_key: TextEditing,
    pub new_passphrase_focused: bool,
    pub profile_name_focused: bool,
    pub confirm_passphrase_focused: bool,
    pub recovery_key_focused: bool,
    /// The input a text-selection drag is running in.
    pub select_dragging: Option<String>,
}

/// The abstract state of the profile inputs.
pub struct ProfileInputsView {
    pub new_passphrase: EditView,
    pub profile_name: EditView,
    pub confirm_passphrase: EditView,
    pub recovery_key: EditView,
    pub new_passphrase_focused: bool,
    pub profile_name_focused: bool,
    pub confirm_passphrase_focused: bool,
    pub recovery_key_focused: bool,
    pub select_dragging: Option<Seq<char>>,
}

impl View for ProfileInputs {
    type V = ProfileInputsView;

    open spec fn view(&self) -> ProfileInputsView {
        ProfileInputsView {
            new_passphrase: self.new_passphrase@,
            profile_name: self.profile_name@,
            confirm_passphrase: self.confirm_passphrase@,
            recovery_key: self.recovery_key@,
            new_passphrase_focused: self.new_passphrase_focused,
            profile_name_focused: self.profile_name_focused,
            confirm_passphrase_focused: self.confirm_passphrase_focused,
            recovery_key_focused: self.recovery_key_focused,
            select_dragging: match self.select_dragging {
                Some(x) => Some(x@),
                None => None,
            },
        }
    }
}

/// A field with the cursor and the selection anchor at `c`.
pub open spec fn anchored_at(e: EditView, c: usize) -> EditView {
    EditView { cursor: c, anchor: Some(c), ..e }
}

/// A field without a selection anchor.
pub open spec fn unanchored(e: EditView) -> EditView {
    EditView { anchor: None, ..e }
}

/// A text-selection drag starting at character `c` of input `id`: the
/// input gets the cursor and the anchor and the focus, every other input
/// loses its focus and its anchor, and the drag is recorded as running in
/// `id`. On the set-new-passphrase input the handler then drops that
/// input's own focus and anchor again, keeping only the cursor, and leaves
/// the name and recovery inputs as they were.
pub open spec fn profile_text_drag_of(s: ProfileInputsView, id: Seq<char>, c: usize) -> ProfileInputsView {
    let t = match profile_drag_field_of(id) {
        ProfileDragField::Passphrase => ProfileInputsView {
            new_passphrase: anchored_at(s.new_passphrase, c),
            profile_name: unanchored(s.profile_name),
            confirm_passphrase: unanchored(s.confirm_passphrase),
            recovery_key: unanchored(s.recovery_key),
            new_passphrase_focused: true,
            profile_name_focused: false,
            confirm_passphrase_focused: false,
            recovery_key_focused: false,
            ..s
        },
        ProfileDragField::ProfileName => ProfileInputsView {
            new_passphrase: unanchored(s.new_passphrase),
            profile_name: anchored_at(s.profile_name, c),
            confirm_passphrase: unanchored(s.confirm_passphrase),
            recovery_key: unanchored(s.recovery_key),
            new_passphrase_focused: false,
            profile_name_focused: true,
            confirm_passphrase_focused: false,
            recovery_key_focused: false,
            ..s
        },
        ProfileDragField::RecoveryKey => ProfileInputsView {
            new_passphrase: unanchored(s.new_passphrase),
            profile_name: unanchored(s.profile_name),
            confirm_passphrase: unanchored(s.confirm_passphrase),
            recovery_key: anchored_at(s.recovery_key, c),
            new_passphrase_focused: false,
            profile_name_focused: false,
            confirm_passphrase_focused: false,
            recovery_key_focused: true,
            ..s
        },
        ProfileDragField::SetNewPassphrase => ProfileInputsView {
            new_passphrase: EditView { cursor: c, anchor: None, ..s.new_passphrase },
            confirm_passphrase: unanchored(s.confirm_passphrase),
            new_passphrase_focused: false,
            confirm_passphrase_focused: false,
            ..s
        },
        ProfileDragField::ConfirmPassphrase => ProfileInputsView {
            new_passphrase: unanchored(s.new_passphrase),
            profile_name: unanchored(s.profile_name),
            confirm_passphrase: anchored_at(s.confirm_passphrase, c),
            recovery_key: unanchored(s.recovery_key),
            new_passphrase_focused: false,
            profile_name_focused: false,
            confirm_passphrase_focused: true,
            recovery_key_focused: false,
            ..s
        },
        ProfileDragField::Unknown => s,
    };
    ProfileInputsView { select_dragging: Some(id), ..t }
}

impl ProfileInputs {
    /// Start a text-selection drag at character `c` of the input with
    /// widget id `id`, which the press hit.
    pub fn start_text_drag(&mut self, id: &str, c: usize)
        ensures
            final(self)@ == profile_text_drag_of(old(self)@, id@, c),
    {
        match profile_drag_field(id) {
            ProfileDragField::Passphrase => {
                self.new_passphrase.cursor = c;
                self.new_passphrase.selection_start = Some(c);
                self.profile_name.selection_start = None;
                self.confirm_passphrase.selection_start = None;
                self.recovery_key.selection_start = None;
                self.new_passphrase_focused = true;
                self.profile_name_focused = false;
                self.confirm_passphrase_focused = false;
                self.recovery_key_focused = false;
            },
            ProfileDragField::ProfileName => {
                self.profile_name.cursor = c;
                self.profile_name.selection_start = Some(c);
                self.new_passphrase.selection_start = None;
                self.confirm_passphrase.selection_start = None;
                self.recovery_key.selection_start = None;
                self.new_passphrase_focused = false;
                self.profile_name_focused = true;
                self.confirm_passphrase_focused = false;
                self.recovery_key_focused = false;
            },
            ProfileDragField::RecoveryKey => {
                self.recovery_key.cursor = c;
                self.recovery_key.selection_start = Some(c);
                self.new_passphrase.selection_start = None;
                self.profile_name.selection_start = None;
                self.confirm_passphrase.selection_start = None;
                self.new_passphrase_focused = false;
                self.profile_name_focused = false;
                self.confirm_passphrase_focused = false;
                self.recovery_key_focused = true;
            },
            ProfileDragField::SetNewPassphrase => {
                self.new_passphrase.cursor = c;
                self.new_passphrase.selection_start = None;
                self.confirm_passphrase.selection_start = None;
                self.new_passphrase_focused = false;
                self.confirm_passphrase_focused = false;
            },
            ProfileDragField::ConfirmPassphrase => {
                self.confirm_passphrase.cursor = c;
                self.confirm_passphrase.selection_start = Some(c);
                self.new_passphrase.selection_start = None;
                self.profile_name.selection_start = None;
                self.recovery_key.selection_start = None;
                self.new_passphrase_focused = false;
                self.profile_name_focused = false;
                self.confirm_passphrase_focused = true;
                self.recovery_key_focused = false;
            },
            ProfileDragField::Unknown => {},
        }
        self.select_dragging = Some(id.to_string());
    }
}

/// After a drag starts in a known input other than the set-new-passphrase
/// one, that input alone is focused and alone holds a selection anchor.
pub proof fn law_text_drag_focuses_one_input(s: ProfileInputsView, id: Seq<char>, c: usize)
    requires
        profile_drag_field_of(id) != ProfileDragField::SetNewPassphrase,
        profile_drag_field_of(id) != ProfileDragField::Unknown,
    ensures
        ({
            let t = profile_text_drag_of(s, id, c);
            &&& (t.new_passphrase_focused as int) + (t.profile_name_focused as int) + (
            t.confirm_passphrase_focused as int) + (t.recovery_key_focused as int) == 1
            &&& (t.new_passphrase.anchor is Some) as int + (t.profile_name.anchor is Some) as int + (
            t.confirm_passphrase.anchor is Some) as int + (t.recovery_key.anchor is Some) as int == 1
            &&& t.select_dragging == Some(id)
        }),
{
}

} // verus!
