//! The tray menu: the messages it sends to the worker, which rows are ticked,
//! and what a click on a row means.

use vstd::prelude::*;
use vstd::string::*;

verus! {

/// Control message from the tray (main thread) to the worker thread.
#[derive(Debug, PartialEq, Eq)]
pub enum ControlEvent {
    SwitchModel(String),
    SetAutostart(bool),
    /// `None` = system default; `Some(name)` = the input device of that name.
    SetInputDevice(Option<String>),
    /// Abandon the transcription in flight, if any: its text is not typed.
    CancelTranscription,
}

/// A `ControlEvent` over character sequences.
pub enum ControlEventView {
    SwitchModel(Seq<char>),
    SetAutostart(bool),
    SetInputDevice(Option<Seq<char>>),
    CancelTranscription,
}

/// The characters of an optional string.
pub open spec fn opt_view(o: Option<String>) -> Option<Seq<char>> {
    match o {
        Some(s) => Some(s@),
        None => None,
    }
}

impl View for ControlEvent {
    type V = ControlEventView;

    open spec fn view(&self) -> ControlEventView {
        match self {
            ControlEvent::SwitchModel(s) => ControlEventView::SwitchModel(s@),
            ControlEvent::SetAutostart(b) => ControlEventView::SetAutostart(*b),
            ControlEvent::SetInputDevice(o) => ControlEventView::SetInputDevice(opt_view(*o)),
            ControlEvent::CancelTranscription => ControlEventView::CancelTranscription,
        }
    }
}

/// Equality of optional strings by their characters.
pub fn opt_string_eq(a: &Option<String>, b: &Option<String>) -> (r: bool)
    ensures
        r == (opt_view(*a) == opt_view(*b)),
{
    match (a, b) {
        (Some(x), Some(y)) => *x == *y,
        (None, None) => true,
        _ => false,
    }
}

/// A copy of an optional string.
pub fn opt_string_clone(a: &Option<String>) -> (r: Option<String>)
    ensures
        opt_view(r) == opt_view(*a),
{
    match a {
        Some(x) => Some(x.clone()),
        None => None,
    }
}

} // verus!

verus! {

/// One entry of the model menu: the model's name (as in `ggml-<name>.bin`)
/// and the label shown.
#[derive(Debug)]
pub struct ModelChoice {
    pub name: String,
    pub label: String,
}

/// The models the tray offers, in menu order.
pub open spec fn catalog_names() -> Seq<Seq<char>> {
    seq!["tiny.en"@, "base.en"@, "base.en-q5_1"@, "small.en"@, "medium.en"@]
}

/// Their labels, in the same order.
pub open spec fn catalog_labels() -> Seq<Seq<char>> {
    seq![
        "Tiny.en — fastest (~75 MB)"@,
        "Base.en (~150 MB)"@,
        "Base.en quantized (~60 MB)"@,
        "Small.en (~500 MB)"@,
        "Medium.en — best, slowest (~1.5 GB)"@,
    ]
}

/// The label that describes each offered model, by the model's name.
pub open spec fn label_of_model(name: Seq<char>) -> Seq<char> {
    if name == "tiny.en"@ {
        "Tiny.en — fastest (~75 MB)"@
    } else if name == "base.en"@ {
        "Base.en (~150 MB)"@
    } else if name == "base.en-q5_1"@ {
        "Base.en quantized (~60 MB)"@
    } else if name == "small.en"@ {
        "Small.en (~500 MB)"@
    } else if name == "medium.en"@ {
        "Medium.en — best, slowest (~1.5 GB)"@
    } else {
        Seq::empty()
    }
}

proof fn lemma_model_name_spellings()
    ensures
        "tiny.en"@.len() == 7,
        "tiny.en"@[0] == 't',
        "base.en"@.len() == 7,
        "base.en"@[0] == 'b',
        "base.en-q5_1"@.len() == 12,
        "small.en"@.len() == 8,
        "medium.en"@.len() == 9,
{
    reveal_strlit("tiny.en");
    reveal_strlit("base.en");
    reveal_strlit("base.en-q5_1");
    reveal_strlit("small.en");
    reveal_strlit("medium.en");
}

/// Each row of the model menu carries the label of the model it names, and
/// no two rows name the same model.
pub proof fn law_catalog_rows_describe_their_models(i: int, j: int)
    requires
        0 <= i < catalog_names().len(),
        0 <= j < catalog_names().len(),
    ensures
        catalog_labels()[i] == label_of_model(catalog_names()[i]),
        i != j ==> catalog_names()[i] != catalog_names()[j],
{
    lemma_model_name_spellings();
}

fn choice(name: &str, label: &str) -> (c: ModelChoice)
    ensures
        c.name@ == name@,
        c.label@ == label@,
{
    ModelChoice { name: String::from_str(name), label: String::from_str(label) }
}

/// The models offered in the tray submenu.
pub fn model_catalog() -> (v: Vec<ModelChoice>)
    ensures
        v@.len() == 5,
        forall|i: int| 0 <= i < 5 ==> #[trigger] v@[i].name@ == catalog_names()[i] && v@[i].label@
            == catalog_labels()[i],
        forall|i: int| 0 <= i < 5 ==> #[trigger] v@[i].label@ == label_of_model(v@[i].name@),
{
    let mut v: Vec<ModelChoice> = Vec::new();
    v.push(choice("tiny.en", "Tiny.en — fastest (~75 MB)"));
    v.push(choice("base.en", "Base.en (~150 MB)"));
    v.push(choice("base.en-q5_1", "Base.en quantized (~60 MB)"));
    v.push(choice("small.en", "Small.en (~500 MB)"));
    v.push(choice("medium.en", "Medium.en — best, slowest (~1.5 GB)"));
    proof {
        assert forall|i: int| 0 <= i < 5 implies #[trigger] v@[i].label@ == label_of_model(
            v@[i].name@,
        ) by {
            law_catalog_rows_describe_their_models(i, i);
        }
    }
    v
}

/// Which model rows start ticked: those named like the configured model.
/// `found` says whether any is; otherwise no row is ticked.
pub fn model_checks(initial_model: &str, names: &Vec<String>) -> (r: (Vec<bool>, bool))
    ensures
        r.0@.len() == names@.len(),
        forall|i: int| 0 <= i < names@.len() ==> r.0@[i] == (names@[i]@ == initial_model@),
        r.1 == exists|i: int| 0 <= i < names@.len() && names@[i]@ == initial_model@,
{
    let init = String::from_str(initial_model);
    let mut checks: Vec<bool> = Vec::new();
    let mut found = false;
    let mut i: usize = 0;
    while i < names.len()
        invariant
            i <= names.len(),
            init@ == initial_model@,
            checks@.len() == i,
            forall|j: int| 0 <= j < i ==> checks@[j] == (names@[j]@ == initial_model@),
            found == exists|j: int| 0 <= j < i && names@[j]@ == initial_model@,
        decreases names.len() - i,
    {
        let c = names[i] == init;
        if c {
            found = true;
        }
        checks.push(c);
        i = i + 1;
    }
    (checks, found)
}

/// How the microphone rows start: row 0 is "System default", row `i + 1`
/// is device `i`.
#[derive(Debug, PartialEq, Eq)]
pub struct MicChecks {
    pub checks: Vec<bool>,
    /// The configured device is among those listed (or none is configured).
    pub saved_found: bool,
}

/// The configured device's rows are ticked; "System default" is ticked when
/// no device is configured, or when the configured one is not listed (the
/// recorder then falls back to the default).
pub fn mic_checks(initial_mic: &Option<String>, devices: &Vec<String>) -> (r: MicChecks)
    ensures
        r.saved_found == match initial_mic {
            None => true,
            Some(p) => exists|i: int| 0 <= i < devices@.len() && devices@[i]@ == p@,
        },
        r.checks@.len() == devices@.len() + 1,
        r.checks@[0] == !(initial_mic is Some && r.saved_found),
        forall|i: int|
            0 <= i < devices@.len() ==> r.checks@[i + 1] == (opt_view(*initial_mic) == Some(
                devices@[i]@,
            )),
{
    let mut checks: Vec<bool> = Vec::new();
    checks.push(initial_mic.is_none());
    let mut found = initial_mic.is_none();
    let mut i: usize = 0;
    while i < devices.len()
        invariant
            i <= devices.len(),
            checks@.len() == i + 1,
            checks@[0] == (initial_mic is None),
            forall|j: int|
                0 <= j < i ==> checks@[j + 1] == (opt_view(*initial_mic) == Some(devices@[j]@)),
            found == match initial_mic {
                None => true,
                Some(p) => exists|j: int| 0 <= j < i && devices@[j]@ == p@,
            },
        decreases devices.len() - i,
    {
        let c = match initial_mic {
            Some(p) => devices[i] == *p,
            None => false,
        };
        if c {
            found = true;
        }
        checks.push(c);
        i = i + 1;
    }
    if !found {
        checks.set(0, true);
    }
    MicChecks { checks, saved_found: found }
}

/// The menu as the click handler sees it: the ids of its rows, and what the
/// microphone and model rows stand for.
#[derive(Debug)]
pub struct TrayMenu {
    pub quit_id: String,
    pub cancel_id: String,
    pub autostart_id: String,
    pub mic_ids: Vec<String>,
    /// Parallel to `mic_ids`: `None` is "System default".
    pub mic_names: Vec<Option<String>>,
    pub model_ids: Vec<String>,
    /// Parallel to `model_ids`.
    pub model_names: Vec<String>,
}

/// Which row a click landed on.
#[derive(Debug, Clone, Copy, PartialEq, Eq, Structural)]
pub enum MenuClick {
    Quit,
    Cancel,
    Autostart,
    Mic(usize),
    Model(usize),
    /// A row with no action (the version label) or an id not in the menu.
    Unknown,
}

/// `ids` has no entry equal to `id`.
pub open spec fn absent(ids: Seq<String>, id: Seq<char>) -> bool {
    forall|j: int| 0 <= j < ids.len() ==> ids[j]@ != id
}

/// `i` is the first index of `id` in `ids`.
pub open spec fn first_at(ids: Seq<String>, id: Seq<char>, i: int) -> bool {
    0 <= i < ids.len() && ids[i]@ == id && forall|j: int| 0 <= j < i ==> ids[j]@ != id
}

fn find_id(ids: &Vec<String>, id: &String) -> (r: Option<usize>)
    ensures
        match r {
            Some(i) => first_at(ids@, id@, i as int),
            None => absent(ids@, id@),
        },
{
    let mut i: usize = 0;
    while i < ids.len()
        invariant
            i <= ids.len(),
            forall|j: int| 0 <= j < i ==> ids@[j]@ != id@,
        decreases ids.len() - i,
    {
        if ids[i] == *id {
            return Some(i);
        }
        i = i + 1;
    }
    None
}

impl TrayMenu {
    /// The rows' parallel lists line up.
    pub open spec fn wf(&self) -> bool {
        self.mic_ids@.len() == self.mic_names@.len() && self.model_ids@.len()
            == self.model_names@.len()
    }

    /// Finds the row a click with this id landed on: Quit, then Cancel,
    /// then the autostart toggle, then the first microphone row, then the
    /// first model row with that id.
    pub fn route_click(&self, id: &String) -> (c: MenuClick)
        ensures
            match c {
                MenuClick::Quit => id@ == self.quit_id@,
                MenuClick::Cancel => id@ != self.quit_id@ && id@ == self.cancel_id@,
                MenuClick::Autostart => id@ != self.quit_id@ && id@ != self.cancel_id@ && id@
                    == self.autostart_id@,
                MenuClick::Mic(i) => id@ != self.quit_id@ && id@ != self.cancel_id@ && id@
                    != self.autostart_id@ && first_at(self.mic_ids@, id@, i as int),
                MenuClick::Model(i) => id@ != self.quit_id@ && id@ != self.cancel_id@ && id@
                    != self.autostart_id@ && absent(self.mic_ids@, id@) && first_at(
                    self.model_ids@,
                    id@,
                    i as int,
                ),
                MenuClick::Unknown => id@ != self.quit_id@ && id@ != self.cancel_id@ && id@
                    != self.autostart_id@ && absent(self.mic_ids@, id@) && absent(
                    self.model_ids@,
                    id@,
                ),
            },
    {
        if *id == self.quit_id {
            return MenuClick::Quit;
        }
        if *id == self.cancel_id {
            return MenuClick::Cancel;
        }
        if *id == self.autostart_id {
            return MenuClick::Autostart;
        }
        if let Some(i) = find_id(&self.mic_ids, id) {
            return MenuClick::Mic(i);
        }
        match find_id(&self.model_ids, id) {
            Some(i) => MenuClick::Model(i),
            None => MenuClick::Unknown,
        }
    }

    /// The message a click sends to the worker: Cancel cancels, a
    /// microphone row selects its device, a model row switches to its model.
    /// Quit, the autostart toggle (whose new tick the menu knows) and
    /// unknown rows send nothing from here.
    pub fn click_control(&self, c: MenuClick) -> (e: Option<ControlEvent>)
        requires
            self.wf(),
            c matches MenuClick::Mic(i) ==> i < self.mic_ids@.len(),
            c matches MenuClick::Model(i) ==> i < self.model_ids@.len(),
        ensures
            match c {
                MenuClick::Cancel => e matches Some(ControlEvent::CancelTranscription),
                MenuClick::Mic(i) => e matches Some(ControlEvent::SetInputDevice(d)) && opt_view(d)
                    == opt_view(self.mic_names@[i as int]),
                MenuClick::Model(i) => e matches Some(ControlEvent::SwitchModel(n)) && n@
                    == self.model_names@[i as int]@,
                _ => e is None,
            },
    {
        match c {
            MenuClick::Cancel => Some(ControlEvent::CancelTranscription),
            MenuClick::Mic(i) => Some(ControlEvent::SetInputDevice(opt_string_clone(&self.mic_names[i]))),
            MenuClick::Model(i) => Some(ControlEvent::SwitchModel(self.model_names[i].clone())),
            _ => None,
        }
    }
}

/// Radio behaviour: after picking row `picked`, exactly the rows with the
/// same id as the picked one are ticked.
pub fn radio_checks(ids: &Vec<String>, picked: usize) -> (checks: Vec<bool>)
    requires
        picked < ids@.len(),
    ensures
        checks@.len() == ids@.len(),
        forall|j: int| 0 <= j < ids@.len() ==> checks@[j] == (ids@[j]@ == ids@[picked as int]@),
{
    let mut checks: Vec<bool> = Vec::new();
    let mut j: usize = 0;
    while j < ids.len()
        invariant
            j <= ids.len(),
            picked < ids@.len(),
            checks@.len() == j,
            forall|k: int| 0 <= k < j ==> checks@[k] == (ids@[k]@ == ids@[picked as int]@),
        decreases ids.len() - j,
    {
        checks.push(ids[j] == ids[picked]);
        j = j + 1;
    }
    checks
}

/// With distinct row ids, a radio click leaves exactly the picked row
/// ticked.
pub proof fn law_radio_ticks_one_row(ids: Seq<String>, picked: int, checks: Seq<bool>)
    requires
        0 <= picked < ids.len(),
        forall|a: int, b: int| 0 <= a < b < ids.len() ==> ids[a]@ != ids[b]@,
        checks.len() == ids.len(),
        forall|j: int| 0 <= j < ids.len() ==> checks[j] == (ids[j]@ == ids[picked]@),
    ensures
        forall|j: int| 0 <= j < ids.len() ==> (checks[j] <==> j == picked),
{
    assert forall|j: int| 0 <= j < ids.len() implies (checks[j] <==> j == picked) by {
        if j < picked {
            assert(ids[j]@ != ids[picked]@);
        } else if j > picked {
            assert(ids[picked]@ != ids[j]@);
        }
    }
}

} // verus!
