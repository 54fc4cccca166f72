//! Content-standard vocabulary used by prompt clarification.
use vstd::prelude::*;

verus! {

/// How strongly a content standard asks for a field.
#[derive(Debug, Clone, Copy, PartialEq, Eq)]
pub enum FieldPriority {
    Required,
    Recommended,
}

/// Wire name of a priority.
pub open spec fn priority_name(p: FieldPriority) -> Seq<char> {
    match p {
        FieldPriority::Required => "required"@,
        FieldPriority::Recommended => "recommended"@,
    }
}

impl FieldPriority {
    /// Wire name of the priority.
    pub fn as_str(&self) -> (r: &'static str)
        ensures
            r@ == priority_name(*self),
    {
        match self {
            FieldPriority::Required => "required",
            FieldPriority::Recommended => "recommended",
        }
    }
}

/// Widget used to ask for a field.
#[derive(Debug, Clone, Copy, PartialEq, Eq)]
pub enum InputType {
    Select,
    Text,
}

/// Wire name of an input type.
pub open spec fn input_type_name(t: InputType) -> Seq<char> {
    match t {
        InputType::Select => "select"@,
        InputType::Text => "text"@,
    }
}

impl InputType {
    /// Wire name of the input type.
    pub fn as_str(&self) -> (r: &'static str)
        ensures
            r@ == input_type_name(*self),
    {
        match self {
            InputType::Select => "select",
            InputType::Text => "text",
        }
    }
}

/// A field that a content standard may ask the teacher about.
#[derive(Debug, Clone)]
pub struct FieldDefinition {
    pub field_id: &'static str,
    pub label_id: &'static str,
    pub label_en: &'static str,
    pub input_type: InputType,
    pub priority: FieldPriority,
    pub suggestions: Vec<String>,
}

/// A field of the minimum requirements of a content type.
#[derive(Debug, Clone)]
pub struct MinimumRequirementField {
    pub field_id: String,
    pub field_label: String,
    pub priority: String,
    pub input_type: String,
    pub description: String,
    pub suggestions: Vec<String>,
}

/// A missing field together with the question that asks for it.
#[derive(Debug, Clone)]
pub struct ContentGap {
    pub field_id: String,
    pub question: String,
    pub priority: String,
    pub input_type: String,
    pub suggestions: Vec<String>,
    pub detected_value: Option<String>,
}

/// The content of a gap.
pub struct GapRecord {
    pub field_id: Seq<char>,
    pub question: Seq<char>,
    pub priority: Seq<char>,
    pub input_type: Seq<char>,
    pub suggestions: Seq<String>,
    pub detected_value: Option<Seq<char>>,
}

impl View for ContentGap {
    type V = GapRecord;

    open spec fn view(&self) -> GapRecord {
        GapRecord {
            field_id: self.field_id@,
            question: self.question@,
            priority: self.priority@,
            input_type: self.input_type@,
            suggestions: self.suggestions@,
            detected_value: match self.detected_value {
                Some(v) => Some(v@),
                None => None,
            },
        }
    }
}

/// Kind of teaching material a prompt asks for.
#[derive(Debug, Clone, Copy, PartialEq, Eq)]
pub enum ContentType {
    MateriPembelajaran,
    SlidePresentasi,
    Rpp,
    LembarKerja,
    Silabus,
    Penilaian,
}

/// Wire name of a content type.
pub open spec fn content_type_name(t: ContentType) -> Seq<char> {
    match t {
        ContentType::MateriPembelajaran => "materi_pembelajaran"@,
        ContentType::SlidePresentasi => "slide_presentasi"@,
        ContentType::Rpp => "rpp"@,
        ContentType::LembarKerja => "lembar_kerja"@,
        ContentType::Silabus => "silabus"@,
        ContentType::Penilaian => "penilaian"@,
    }
}

impl ContentType {
    /// Wire name of the content type.
    pub fn as_str(&self) -> (r: &'static str)
        ensures
            r@ == content_type_name(*self),
    {
        match self {
            ContentType::MateriPembelajaran => "materi_pembelajaran",
            ContentType::SlidePresentasi => "slide_presentasi",
            ContentType::Rpp => "rpp",
            ContentType::LembarKerja => "lembar_kerja",
            ContentType::Silabus => "silabus",
            ContentType::Penilaian => "penilaian",
        }
    }
}

} // verus!
