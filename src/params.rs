use vstd::prelude::*;

verus! {

/// A request field that is either one string or a list of strings. On the
/// wire it is the bare string or the bare array, with no tag.
#[derive(Debug, Clone, PartialEq, Eq)]
pub enum StringOrListParam {
    StringParam(String),
    ListParam(Vec<String>),
}

/// What a `StringOrListParam` holds, as text.
pub enum ParamModel {
    Single(Seq<char>),
    List(Seq<Seq<char>>),
}

pub open spec fn texts_of_strings(l: Seq<String>) -> Seq<Seq<char>> {
    l.map_values(|s: String| s@)
}

pub open spec fn texts_of_strs(l: Seq<&str>) -> Seq<Seq<char>> {
    l.map_values(|s: &str| s@)
}

impl View for StringOrListParam {
    type V = ParamModel;

    open spec fn view(&self) -> ParamModel {
        match self {
            StringOrListParam::StringParam(s) => ParamModel::Single(s@),
            StringOrListParam::ListParam(l) => ParamModel::List(texts_of_strings(l@)),
        }
    }
}

/// A value that a string-or-list field can be set from.
pub trait IntoTextParam: Sized {
    spec fn param_model(&self) -> ParamModel;

    fn into_param(self) -> (r: StringOrListParam)
        ensures
            r@ == self.param_model(),
    ;
}

fn owned_strings(items: &Vec<&str>) -> (r: Vec<String>)
    ensures
        texts_of_strings(r@) == texts_of_strs(items@),
{
    let mut out: Vec<String> = Vec::new();
    let mut i: usize = 0;
    while i < items.len()
        invariant
            i <= items@.len(),
            out@.len() == i,
            forall|j: int| 0 <= j < i ==> #[trigger] out@[j]@ == items@[j]@,
        decreases items@.len() - i,
    {
        out.push(items[i].to_owned());
        i = i + 1;
    }
    assert(texts_of_strings(out@) =~= texts_of_strs(items@));
    out
}

impl<'a> IntoTextParam for &'a str {
    open spec fn param_model(&self) -> ParamModel {
        ParamModel::Single((*self)@)
    }

    fn into_param(self) -> (r: StringOrListParam) {
        StringOrListParam::StringParam(self.to_owned())
    }
}

impl<'a> IntoTextParam for Vec<&'a str> {
    open spec fn param_model(&self) -> ParamModel {
        ParamModel::List(texts_of_strs(self@))
    }

    fn into_param(self) -> (r: StringOrListParam) {
        StringOrListParam::ListParam(owned_strings(&self))
    }
}

impl<'a, 'b> IntoTextParam for &'b Vec<&'a str> {
    open spec fn param_model(&self) -> ParamModel {
        ParamModel::List(texts_of_strs((*self)@))
    }

    fn into_param(self) -> (r: StringOrListParam) {
        StringOrListParam::ListParam(owned_strings(self))
    }
}

/// A value that a text field can be set from.
pub trait IntoTextValue: Sized {
    spec fn text_model(&self) -> Seq<char>;

    fn into_text(self) -> (r: String)
        ensures
            r@ == self.text_model(),
    ;
}

impl<'a> IntoTextValue for &'a str {
    open spec fn text_model(&self) -> Seq<char> {
        (*self)@
    }

    fn into_text(self) -> (r: String) {
        self.to_owned()
    }
}

impl IntoTextValue for String {
    open spec fn text_model(&self) -> Seq<char> {
        self@
    }

    fn into_text(self) -> (r: String) {
        self
    }
}

impl<'a> IntoTextValue for &'a String {
    open spec fn text_model(&self) -> Seq<char> {
        (*self)@
    }

    fn into_text(self) -> (r: String) {
        self.clone()
    }
}

/// A value that an integer field can be set from; `true` counts as 1 and
/// `false` as 0.
pub trait IntoIntParam: Sized {
    spec fn int_model(&self) -> i64;

    fn into_int(self) -> (r: i64)
        ensures
            r == self.int_model(),
    ;
}

impl IntoIntParam for i64 {
    open spec fn int_model(&self) -> i64 {
        *self
    }

    fn into_int(self) -> (r: i64) {
        self
    }
}

impl IntoIntParam for i32 {
    open spec fn int_model(&self) -> i64 {
        *self as i64
    }

    fn into_int(self) -> (r: i64) {
        self as i64
    }
}

impl IntoIntParam for i8 {
    open spec fn int_model(&self) -> i64 {
        *self as i64
    }

    fn into_int(self) -> (r: i64) {
        self as i64
    }
}

impl IntoIntParam for i16 {
    open spec fn int_model(&self) -> i64 {
        *self as i64
    }

    fn into_int(self) -> (r: i64) {
        self as i64
    }
}

impl IntoIntParam for u8 {
    open spec fn int_model(&self) -> i64 {
        *self as i64
    }

    fn into_int(self) -> (r: i64) {
        self as i64
    }
}

impl IntoIntParam for u16 {
    open spec fn int_model(&self) -> i64 {
        *self as i64
    }

    fn into_int(self) -> (r: i64) {
        self as i64
    }
}

impl IntoIntParam for u32 {
    open spec fn int_model(&self) -> i64 {
        *self as i64
    }

    fn into_int(self) -> (r: i64) {
        self as i64
    }
}

impl IntoIntParam for bool {
    open spec fn int_model(&self) -> i64 {
        if *self { 1 } else { 0 }
    }

    fn into_int(self) -> (r: i64) {
        if self { 1 } else { 0 }
    }
}

} // verus!
