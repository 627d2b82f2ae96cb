use vstd::prelude::*;

verus! {

/// The kind of value a form field takes.
#[derive(Debug, PartialEq, Eq, Structural, Clone, Copy)]
pub enum FormInput {
    Numerical,
}

/// One field of a data-entry form, with the text typed into it so far.
#[derive(Debug)]
pub struct FormEntry {
    pub label: Option<String>,
    pub input: FormInput,
    pub buffer: String,
}

/// A data-entry form: a title over a list of fields.
#[derive(Debug, Default)]
pub struct Form {
    pub title: String,
    pub entries: Vec<FormEntry>,
}

/// A numerical field labelled `label`, with nothing typed into it yet.
pub open spec fn blank_numerical(e: FormEntry, label: Seq<char>) -> bool {
    &&& e.label is Some
    &&& e.label->Some_0@ == label
    &&& e.input == FormInput::Numerical
    &&& e.buffer@ == Seq::<char>::empty()
}

fn numerical_entry(label: &str) -> (r: FormEntry)
    ensures
        blank_numerical(r, label@),
{
    FormEntry { label: Some(label.to_owned()), input: FormInput::Numerical, buffer: String::new() }
}

impl Form {
    /// A sample form with three numerical fields.
    pub fn example() -> (r: Form)
        ensures
            r.title@ == "Example Form"@,
            r.entries.len() == 3,
            blank_numerical(r.entries@[0], "Length"@),
            blank_numerical(r.entries@[1], "Width"@),
            blank_numerical(r.entries@[2], "Depth"@),
    {
        let mut entries: Vec<FormEntry> = Vec::new();
        entries.push(numerical_entry("Length"));
        entries.push(numerical_entry("Width"));
        entries.push(numerical_entry("Depth"));
        Form { title: "Example Form".to_owned(), entries }
    }

    /// The form that asks for the target of an angle constraint.
    pub fn angle() -> (r: Form)
        ensures
            r.title@ == "Constrain"@,
            r.entries.len() == 1,
            blank_numerical(r.entries@[0], "Angle"@),
    {
        let mut entries: Vec<FormEntry> = Vec::new();
        entries.push(numerical_entry("Angle"));
        Form { title: "Constrain".to_owned(), entries }
    }

    /// The form that asks for the target of a distance constraint.
    pub fn distance() -> (r: Form)
        ensures
            r.title@ == "Constrain"@,
            r.entries.len() == 1,
            blank_numerical(r.entries@[0], "Distance"@),
    {
        let mut entries: Vec<FormEntry> = Vec::new();
        entries.push(numerical_entry("Distance"));
        Form { title: "Constrain".to_owned(), entries }
    }
}

} // verus!
