//! The state of the terminal verifier: the paths and key it asks for, which
//! field is selected, the last result, and what each key press does to them.
use vstd::prelude::*;
use vstd::string::StrSliceExecFns;

verus! {

/// The fields the terminal verifier asks for, in the order it shows them.
#[derive(Clone, Copy, Debug, PartialEq, Eq, Structural)]
pub enum FieldId {
    Receipt,
    Manifest,
    Controls,
    TrustRegistry,
    RevocationList,
    Policy,
    PinnedKey,
}

/// How many fields there are.
pub const FIELD_COUNT: usize = 7;

/// The position of a field.
pub open spec fn field_index(f: FieldId) -> nat {
    match f {
        FieldId::Receipt => 0,
        FieldId::Manifest => 1,
        FieldId::Controls => 2,
        FieldId::TrustRegistry => 3,
        FieldId::RevocationList => 4,
        FieldId::Policy => 5,
        FieldId::PinnedKey => 6,
    }
}

/// The fields in the order they are shown.
pub open spec fn field_order() -> Seq<FieldId> {
    seq![
        FieldId::Receipt,
        FieldId::Manifest,
        FieldId::Controls,
        FieldId::TrustRegistry,
        FieldId::RevocationList,
        FieldId::Policy,
        FieldId::PinnedKey,
    ]
}

/// The label a field is shown with.
pub open spec fn field_label(f: FieldId) -> Seq<char> {
    match f {
        FieldId::Receipt => "Receipt path"@,
        FieldId::Manifest => "Manifest path"@,
        FieldId::Controls => "Controls path"@,
        FieldId::TrustRegistry => "Trust registry path"@,
        FieldId::RevocationList => "Revocation list path"@,
        FieldId::Policy => "Verify policy path"@,
        FieldId::PinnedKey => "Pinned public key"@,
    }
}

impl FieldId {
    /// Every field, in the order shown.
    pub fn all() -> (r: Vec<FieldId>)
        ensures
            r@ == field_order(),
    {
        let r = vec![
            FieldId::Receipt,
            FieldId::Manifest,
            FieldId::Controls,
            FieldId::TrustRegistry,
            FieldId::RevocationList,
            FieldId::Policy,
            FieldId::PinnedKey,
        ];
        assert(r@ =~= field_order());
        r
    }

    /// The label the field is shown with.
    pub fn label(self) -> (r: &'static str)
        ensures
            r@ == field_label(self),
    {
        match self {
            FieldId::Receipt => "Receipt path",
            FieldId::Manifest => "Manifest path",
            FieldId::Controls => "Controls path",
            FieldId::TrustRegistry => "Trust registry path",
            FieldId::RevocationList => "Revocation list path",
            FieldId::Policy => "Verify policy path",
            FieldId::PinnedKey => "Pinned public key",
        }
    }

    /// The position of the field.
    pub fn index(self) -> (r: usize)
        ensures
            r == field_index(self),
    {
        match self {
            FieldId::Receipt => 0,
            FieldId::Manifest => 1,
            FieldId::Controls => 2,
            FieldId::TrustRegistry => 3,
            FieldId::RevocationList => 4,
            FieldId::Policy => 5,
            FieldId::PinnedKey => 6,
        }
    }
}

/// Whether `c` has the Unicode White_Space property.
pub open spec fn white_space(c: char) -> bool {
    let u = c as u32;
    ||| 0x9 <= u <= 0xd
    ||| u == 0x20
    ||| u == 0x85
    ||| u == 0xa0
    ||| u == 0x1680
    ||| 0x2000 <= u <= 0x200a
    ||| u == 0x2028
    ||| u == 0x2029
    ||| u == 0x202f
    ||| u == 0x205f
    ||| u == 0x3000
}

/// Whether `c` has the Unicode White_Space property.
pub fn is_white_space(c: char) -> (r: bool)
    ensures
        r == white_space(c),
{
    let u = c as u32;
    (0x9 <= u && u <= 0xd) || u == 0x20 || u == 0x85 || u == 0xa0 || u == 0x1680
        || (0x2000 <= u && u <= 0x200a) || u == 0x2028 || u == 0x2029 || u == 0x202f || u == 0x205f
        || u == 0x3000
}

/// The end of the run of white space that starts at `i`.
pub open spec fn lead_end(s: Seq<char>, i: int) -> int
    decreases s.len() - i,
{
    if 0 <= i < s.len() && white_space(s[i]) {
        lead_end(s, i + 1)
    } else {
        i
    }
}

/// The start of the run of white space that ends at `j`, not before `lo`.
pub open spec fn trail_start(s: Seq<char>, lo: int, j: int) -> int
    decreases j - lo,
{
    if lo < j && white_space(s[j - 1]) {
        trail_start(s, lo, j - 1)
    } else {
        j
    }
}

/// `s` without the white space at its start and its end.
pub open spec fn trimmed(s: Seq<char>) -> Seq<char> {
    let a = lead_end(s, 0);
    s.subrange(a, trail_start(s, a, s.len() as int))
}

proof fn lemma_lead_end_bounds(s: Seq<char>, i: int)
    requires
        0 <= i <= s.len(),
    ensures
        i <= lead_end(s, i) <= s.len(),
    decreases s.len() - i,
{
    if i < s.len() && white_space(s[i]) {
        lemma_lead_end_bounds(s, i + 1);
    }
}

proof fn lemma_trail_start_bounds(s: Seq<char>, lo: int, j: int)
    requires
        lo <= j,
    ensures
        lo <= trail_start(s, lo, j) <= j,
    decreases j - lo,
{
    if lo < j && white_space(s[j - 1]) {
        lemma_trail_start_bounds(s, lo, j - 1);
    }
}

/// `value` without the white space at its start and its end.
pub fn trim_text(value: &str) -> (r: &str)
    ensures
        r@ == trimmed(value@),
{
    let n = value.unicode_len();
    let mut i: usize = 0;
    while i < n && is_white_space(value.get_char(i))
        invariant
            i <= n,
            n == value@.len(),
            lead_end(value@, 0) == lead_end(value@, i as int),
        decreases n - i,
    {
        i = i + 1;
    }
    let mut j: usize = n;
    proof {
        lemma_lead_end_bounds(value@, i as int);
    }
    while j > i && is_white_space(value.get_char(j - 1))
        invariant
            i <= j <= n,
            n == value@.len(),
            lead_end(value@, 0) == i,
            trail_start(value@, i as int, n as int) == trail_start(value@, i as int, j as int),
        decreases j - i,
    {
        j = j - 1;
    }
    value.substring_char(i, j)
}

/// The trimmed text of a field, where anything is left of it.
pub fn string_or_none(value: &str) -> (r: Option<&str>)
    ensures
        trimmed(value@).len() == 0 ==> r is None,
        trimmed(value@).len() > 0 ==> (r matches Some(t) && t@ == trimmed(value@)),
{
    let t = trim_text(value);
    if t.unicode_len() == 0 {
        None
    } else {
        Some(t)
    }
}

/// Calls `String::push`, which, as its documentation states, appends `c`.
#[verifier::external_body]
fn push_char(s: &mut String, c: char)
    ensures
        final(s)@ == old(s)@.push(c),
{
    s.push(c);
}

/// Calls `String::pop`, which, as its documentation states, removes the last
/// character where there is one and returns it.
#[verifier::external_body]
fn pop_char(s: &mut String) -> (r: Option<char>)
    ensures
        old(s)@.len() == 0 ==> r is None && final(s)@ == old(s)@,
        old(s)@.len() > 0 ==> r == Some(old(s)@.last()) && final(s)@ == old(s)@.drop_last(),
{
    s.pop()
}

/// The message the terminal verifier starts with.
pub open spec fn start_message() -> Seq<char> {
    "Press F5 to verify, q to quit, tab to move fields."@
}

/// A key the terminal verifier reacts to.
#[derive(Clone, Copy, Debug, PartialEq, Eq, Structural)]
pub enum KeyCode {
    Char(char),
    Tab,
    BackTab,
    Up,
    Down,
    Backspace,
    Enter,
    F(u8),
    Other,
}

/// A key event: the key, whether Control was held, and whether it is a press
/// (a release or repeat is ignored).
#[derive(Clone, Copy, Debug, PartialEq, Eq, Structural)]
pub struct KeyPress {
    pub code: KeyCode,
    pub control: bool,
    pub press: bool,
}

/// What the terminal verifier does after a key: go on, quit, or verify the
/// fields.
#[derive(Clone, Copy, Debug, PartialEq, Eq, Structural)]
pub enum TuiAction {
    Continue,
    Quit,
    Verify,
}

/// The action a key asks for: `q` quits, F5 and Enter verify.
pub open spec fn key_action(key: KeyPress) -> TuiAction {
    if !key.press {
        TuiAction::Continue
    } else {
        match key.code {
            KeyCode::Char(c) => if c == 'q' { TuiAction::Quit } else { TuiAction::Continue },
            KeyCode::F(n) => if n == 5 { TuiAction::Verify } else { TuiAction::Continue },
            KeyCode::Enter => TuiAction::Verify,
            _ => TuiAction::Continue,
        }
    }
}

/// The selected field after a key: Tab and Down move to the next field,
/// BackTab and Up to the previous one, wrapping around.
pub open spec fn next_selected(selected: nat, key: KeyPress) -> nat {
    if !key.press {
        selected
    } else {
        match key.code {
            KeyCode::Tab | KeyCode::Down => ((selected + 1) % 7) as nat,
            KeyCode::BackTab | KeyCode::Up => if selected == 0 { 6 } else { (selected - 1) as nat },
            _ => selected,
        }
    }
}

/// The text of the selected field after a key: Backspace drops its last
/// character; any other character but `q` (and `v` with Control) is appended.
pub open spec fn next_text(text: Seq<char>, key: KeyPress) -> Seq<char> {
    if !key.press {
        text
    } else {
        match key.code {
            KeyCode::Backspace => if text.len() > 0 { text.drop_last() } else { text },
            KeyCode::Char(c) => if c == 'q' || (c == 'v' && key.control) { text } else { text.push(c) },
            _ => text,
        }
    }
}

/// The fields, selection and result of the terminal verifier.
pub struct App {
    pub values: Vec<String>,
    pub selected: usize,
    pub result: String,
}

/// The paths and key the fields name, each where anything is left of it
/// once trimmed.
pub struct VerifyInputs<'a> {
    pub receipt: Option<&'a str>,
    pub manifest: Option<&'a str>,
    pub controls: Option<&'a str>,
    pub trust_registry: Option<&'a str>,
    pub revocation_list: Option<&'a str>,
    pub policy: Option<&'a str>,
    pub pinned_key: Option<&'a str>,
}

/// Whether `r` is the trimmed text of `value`, where anything is left of it.
pub open spec fn names(r: Option<&str>, value: Seq<char>) -> bool {
    &&& trimmed(value).len() == 0 ==> r is None
    &&& trimmed(value).len() > 0 ==> (r matches Some(t) && t@ == trimmed(value))
}

impl App {
    /// Whether there is one text per field and a field is selected.
    pub open spec fn well_formed(&self) -> bool {
        &&& self.values@.len() == 7
        &&& self.selected < 7
    }

    /// Empty fields, the first selected, and the start message.
    pub fn new() -> (r: Self)
        ensures
            r.well_formed(),
            r.selected == 0,
            forall|i: int| 0 <= i < 7 ==> #[trigger] r.values@[i]@ == Seq::<char>::empty(),
            r.result@ == start_message(),
    {
        let mut values: Vec<String> = Vec::new();
        let mut k: usize = 0;
        while k < FIELD_COUNT
            invariant
                k <= 7,
                values@.len() == k,
                forall|i: int| 0 <= i < k ==> #[trigger] values@[i]@ == Seq::<char>::empty(),
            decreases 7 - k,
        {
            values.push(String::new());
            k = k + 1;
        }
        App {
            values,
            selected: 0,
            result: crate::receipt_v2::owned_text("Press F5 to verify, q to quit, tab to move fields."),
        }
    }

    /// The text of a field.
    pub fn value(&self, field: FieldId) -> (r: &str)
        requires
            self.well_formed(),
        ensures
            r@ == self.values@[field_index(field) as int]@,
    {
        self.values[field.index()].as_str()
    }

    /// The selected field.
    pub fn selected_field(&self) -> (r: FieldId)
        requires
            self.well_formed(),
        ensures
            field_index(r) == self.selected,
    {
        let fields = FieldId::all();
        fields[self.selected]
    }

    /// Sets the result shown.
    pub fn set_result(&mut self, text: String)
        ensures
            final(self).result == text,
            final(self).values == old(self).values,
            final(self).selected == old(self).selected,
    {
        self.result = text;
    }

    /// What a key does: the action it asks for, the field it selects and the
    /// change to the selected field's text; the result stays.
    pub fn handle_key(&mut self, key: KeyPress) -> (r: TuiAction)
        requires
            old(self).well_formed(),
        ensures
            final(self).well_formed(),
            r == key_action(key),
            final(self).selected == next_selected(old(self).selected as nat, key),
            final(self).values@.len() == 7,
            final(self).values@[old(self).selected as int]@ == next_text(old(self).values@[old(self).selected as int]@, key),
            forall|i: int| 0 <= i < 7 && i != old(self).selected ==> #[trigger] final(self).values@[i] == old(self).values@[i],
            final(self).result == old(self).result,
    {
        if !key.press {
            return TuiAction::Continue;
        }
        let i = self.selected;
        match key.code {
            KeyCode::Char(c) => {
                if c == 'q' {
                    return TuiAction::Quit;
                }
                if c == 'v' && key.control {
                    return TuiAction::Continue;
                }
                push_char(&mut self.values[i], c);
                TuiAction::Continue
            },
            KeyCode::Tab | KeyCode::Down => {
                self.selected = (i + 1) % FIELD_COUNT;
                TuiAction::Continue
            },
            KeyCode::BackTab | KeyCode::Up => {
                self.selected = if i == 0 { FIELD_COUNT - 1 } else { i - 1 };
                TuiAction::Continue
            },
            KeyCode::Backspace => {
                let _ = pop_char(&mut self.values[i]);
                TuiAction::Continue
            },
            KeyCode::F(n) => {
                if n == 5 { TuiAction::Verify } else { TuiAction::Continue }
            },
            KeyCode::Enter => TuiAction::Verify,
            KeyCode::Other => TuiAction::Continue,
        }
    }

    /// The paths and key to verify with, read from the fields.
    pub fn verify_inputs(&self) -> (r: VerifyInputs<'_>)
        requires
            self.well_formed(),
        ensures
            names(r.receipt, self.values@[0]@),
            names(r.manifest, self.values@[1]@),
            names(r.controls, self.values@[2]@),
            names(r.trust_registry, self.values@[3]@),
            names(r.revocation_list, self.values@[4]@),
            names(r.policy, self.values@[5]@),
            names(r.pinned_key, self.values@[6]@),
    {
        VerifyInputs {
            receipt: string_or_none(self.value(FieldId::Receipt)),
            manifest: string_or_none(self.value(FieldId::Manifest)),
            controls: string_or_none(self.value(FieldId::Controls)),
            trust_registry: string_or_none(self.value(FieldId::TrustRegistry)),
            revocation_list: string_or_none(self.value(FieldId::RevocationList)),
            policy: string_or_none(self.value(FieldId::Policy)),
            pinned_key: string_or_none(self.value(FieldId::PinnedKey)),
        }
    }
}

} // verus!
