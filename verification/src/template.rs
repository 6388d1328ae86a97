//! Reading `#[template_child(id = "...")]` attributes off the fields of a
//! struct, and the bindings of template children that follow from them.
//!
//! The attributes are given as the plain values that the reading looks at:
//! the identifier of each attribute's path, and its arguments as parsed by the
//! caller's Rust parser.
use vstd::prelude::*;

verus! {

/// One item inside the parentheses of a list attribute.
#[derive(Clone, Debug, PartialEq, Eq)]
pub enum NestedItem {
    /// A bare literal.
    Literal,
    /// A bare path.
    Path,
    /// A path with parenthesized arguments.
    List,
    /// `path = literal`: the path's identifier where the path is one, and the
    /// literal's text where it is a string literal.
    NameValue { ident: Option<String>, str_value: Option<String> },
}

/// The arguments of an attribute, as the parser read them.
#[derive(Clone, Debug, PartialEq, Eq)]
pub enum AttrMeta {
    /// No arguments: `#[name]`.
    Path,
    /// `#[name(item, item, ...)]`.
    List(Vec<NestedItem>),
    /// `#[name = literal]`.
    NameValue,
}

/// An attribute: the identifier of its path, where the path is one, and its
/// arguments, or the message of the parser where they could not be read.
#[derive(Debug, PartialEq, Eq)]
pub struct AttributeModel {
    pub ident: Option<String>,
    pub meta: Result<AttrMeta, String>,
}

/// A field of a struct: its name, where it has one, and its attributes.
#[derive(Debug, PartialEq, Eq)]
pub struct FieldModel {
    pub ident: Option<String>,
    pub attrs: Vec<AttributeModel>,
}

/// The body of the item that a derive is applied to.
#[derive(Debug, PartialEq, Eq)]
pub enum DeriveData {
    Struct(Vec<FieldModel>),
    Enum,
    Union,
}

/// What a `#[template_child(...)]` attribute says.
#[derive(Clone, Debug, PartialEq, Eq)]
pub enum TemplateChildAttribute {
    /// The id of the child in the template.
    Id(String),
}

/// Why the attributes could not be read.
#[derive(Clone, Debug, PartialEq, Eq)]
pub enum TemplateAttrError {
    /// The parser could not read the attribute; its message.
    Parse(String),
    /// The attribute is not of the form `#[name(...)]`.
    NotAList,
    /// An item in the list is a bare literal.
    NotNestedMeta,
    /// An item in the list is not of the form `name = literal`.
    NotNameValue,
    /// The literal of an item is not a string.
    NotStringLiteral,
    /// The name of an item is not a single identifier.
    MissingIdent,
    /// The name of an item is not one that is understood; the name.
    UnknownItemMeta(String),
}

/// The error of [`TemplateAttrError`], with its strings as sequences.
pub enum AttrErrorView {
    Parse(Seq<char>),
    NotAList,
    NotNestedMeta,
    NotNameValue,
    NotStringLiteral,
    MissingIdent,
    UnknownItemMeta(Seq<char>),
}

impl View for TemplateAttrError {
    type V = AttrErrorView;

    open spec fn view(&self) -> AttrErrorView {
        match self {
            TemplateAttrError::Parse(s) => AttrErrorView::Parse(s@),
            TemplateAttrError::NotAList => AttrErrorView::NotAList,
            TemplateAttrError::NotNestedMeta => AttrErrorView::NotNestedMeta,
            TemplateAttrError::NotNameValue => AttrErrorView::NotNameValue,
            TemplateAttrError::NotStringLiteral => AttrErrorView::NotStringLiteral,
            TemplateAttrError::MissingIdent => AttrErrorView::MissingIdent,
            TemplateAttrError::UnknownItemMeta(s) => AttrErrorView::UnknownItemMeta(s@),
        }
    }
}

/// A template child to bind: the field that holds it and its id.
#[derive(Clone, Debug, PartialEq, Eq)]
pub struct TemplateChildBinding {
    pub field: String,
    pub id: String,
}

/// The derive was applied to something other than a struct.
#[derive(Copy, Clone, Debug, PartialEq, Eq, Structural)]
pub enum CompositeTemplateError {
    NotAStruct,
}

/// Whether an identifier is there and reads `name`.
pub open spec fn ident_is(ident: Option<String>, name: Seq<char>) -> bool {
    match ident {
        Some(s) => s@ == name,
        None => false,
    }
}

/// The name and the string of an item of the form `name = "string"`.
pub open spec fn attribute_pair(item: NestedItem) -> Result<(Seq<char>, Seq<char>), AttrErrorView> {
    match item {
        NestedItem::Literal => Err(AttrErrorView::NotNestedMeta),
        NestedItem::Path => Err(AttrErrorView::NotNameValue),
        NestedItem::List => Err(AttrErrorView::NotNameValue),
        NestedItem::NameValue { ident, str_value } => match str_value {
            None => Err(AttrErrorView::NotStringLiteral),
            Some(v) => match ident {
                None => Err(AttrErrorView::MissingIdent),
                Some(i) => Ok((i@, v@)),
            },
        },
    }
}

/// The id that an item of a `template_child` list gives.
pub open spec fn child_attribute(item: NestedItem) -> Result<Seq<char>, AttrErrorView> {
    match attribute_pair(item) {
        Err(e) => Err(e),
        Ok((name, value)) => if name == "id"@ {
            Ok(value)
        } else {
            Err(AttrErrorView::UnknownItemMeta(name))
        },
    }
}

/// The ids that the items of a list give, in order, or the error of the
/// first item that gives none.
pub open spec fn child_attributes(items: Seq<NestedItem>) -> Result<Seq<Seq<char>>, AttrErrorView>
    decreases items.len(),
{
    if items.len() == 0 {
        Ok(Seq::empty())
    } else {
        match child_attributes(items.drop_last()) {
            Err(e) => Err(e),
            Ok(ids) => match child_attribute(items.last()) {
                Err(e) => Err(e),
                Ok(id) => Ok(ids.push(id)),
            },
        }
    }
}

/// The index of the first attribute from `i` on whose path reads `name`.
pub open spec fn find_attribute(attrs: Seq<AttributeModel>, name: Seq<char>, i: int) -> Option<int>
    decreases attrs.len() - i,
{
    if i < 0 || i >= attrs.len() {
        None
    } else if ident_is(attrs[i].ident, name) {
        Some(i)
    } else {
        find_attribute(attrs, name, i + 1)
    }
}

/// The ids that the first attribute named `name` gives: none where there is
/// no such attribute.
pub open spec fn attribute_ids(attrs: Seq<AttributeModel>, name: Seq<char>) -> Result<
    Seq<Seq<char>>,
    AttrErrorView,
> {
    match find_attribute(attrs, name, 0) {
        None => Ok(Seq::empty()),
        Some(i) => match attrs[i].meta {
            Err(msg) => Err(AttrErrorView::Parse(msg@)),
            Ok(AttrMeta::List(items)) => child_attributes(items@),
            Ok(_) => Err(AttrErrorView::NotAList),
        },
    }
}

/// The ids in a list of attributes.
pub open spec fn ids_of(attrs: Seq<TemplateChildAttribute>) -> Seq<Seq<char>> {
    attrs.map_values(|a: TemplateChildAttribute| match a {
        TemplateChildAttribute::Id(s) => s@,
    })
}

/// Whether a field is marked as a template child.
pub open spec fn is_template_child(f: FieldModel) -> bool {
    find_attribute(f.attrs@, "template_child"@, 0) is Some
}

/// The id of a template child: the last one that its attribute gives, or the
/// empty string where it gives none or cannot be read.
pub open spec fn child_id(f: FieldModel) -> Seq<char> {
    match attribute_ids(f.attrs@, "template_child"@) {
        Ok(ids) => if ids.len() > 0 {
            ids.last()
        } else {
            Seq::empty()
        },
        Err(_) => Seq::empty(),
    }
}

/// Every field marked as a template child has a name.
pub open spec fn children_named(fields: Seq<FieldModel>) -> bool {
    forall|i: int| 0 <= i < fields.len() && #[trigger] is_template_child(fields[i]) ==> fields[i].ident is Some
}

/// The bindings of the fields marked as template children, in field order:
/// each field's name and its child's id.
pub open spec fn bindings(fields: Seq<FieldModel>) -> Seq<(Seq<char>, Seq<char>)>
    decreases fields.len(),
{
    if fields.len() == 0 {
        Seq::empty()
    } else if is_template_child(fields.last()) {
        bindings(fields.drop_last()).push((fields.last().ident->0@, child_id(fields.last())))
    } else {
        bindings(fields.drop_last())
    }
}

/// The bindings, with their strings as sequences.
pub open spec fn bindings_view(v: Seq<TemplateChildBinding>) -> Seq<(Seq<char>, Seq<char>)> {
    v.map_values(|b: TemplateChildBinding| (b.field@, b.id@))
}

/// Once a prefix of a list gives an error, the whole list gives that error.
proof fn lemma_first_error_stays(items: Seq<NestedItem>, k: int)
    requires
        0 <= k <= items.len(),
        child_attributes(items.take(k)) is Err,
    ensures
        child_attributes(items) == child_attributes(items.take(k)),
    decreases items.len() - k,
{
    if k < items.len() {
        assert(items.take(k + 1).drop_last() =~= items.take(k));
        lemma_first_error_stays(items, k + 1);
    } else {
        assert(items.take(k) =~= items);
    }
}

fn str_eq(a: &str, b: &str) -> (res: bool)
    ensures
        res == (a@ == b@),
{
    let n = a.unicode_len();
    if n != b.unicode_len() {
        return false;
    }
    let mut i: usize = 0;
    while i < n
        invariant
            n == a@.len(),
            n == b@.len(),
            i <= n,
            forall|j: int| 0 <= j < i ==> a@[j] == b@[j],
        decreases n - i,
    {
        if a.get_char(i) != b.get_char(i) {
            return false;
        }
        i = i + 1;
    }
    assert(a@ =~= b@);
    true
}

fn ident_matches(ident: &Option<String>, name: &str) -> (res: bool)
    ensures
        res == ident_is(*ident, name@),
{
    match ident {
        Some(s) => str_eq(s.as_str(), name),
        None => false,
    }
}

/// Reads an item of the form `name = "string"`.
pub fn parse_attribute(item: &NestedItem) -> (res: Result<(String, String), TemplateAttrError>)
    ensures
        match res {
            Ok((name, value)) => attribute_pair(*item) == Ok::<(Seq<char>, Seq<char>), AttrErrorView>((name@, value@)),
            Err(e) => attribute_pair(*item) == Err::<(Seq<char>, Seq<char>), AttrErrorView>(e@),
        },
{
    match item {
        NestedItem::Literal => Err(TemplateAttrError::NotNestedMeta),
        NestedItem::Path => Err(TemplateAttrError::NotNameValue),
        NestedItem::List => Err(TemplateAttrError::NotNameValue),
        NestedItem::NameValue { ident, str_value } => match str_value {
            None => Err(TemplateAttrError::NotStringLiteral),
            Some(v) => match ident {
                None => Err(TemplateAttrError::MissingIdent),
                Some(i) => Ok((i.clone(), v.clone())),
            },
        },
    }
}

/// Reads an item of a `template_child` list: `id = "..."` is the only one
/// understood.
pub fn parse_template_child_attribute(item: &NestedItem) -> (res: Result<
    TemplateChildAttribute,
    TemplateAttrError,
>)
    ensures
        match res {
            Ok(TemplateChildAttribute::Id(id)) => child_attribute(*item) == Ok::<Seq<char>, AttrErrorView>(id@),
            Err(e) => child_attribute(*item) == Err::<Seq<char>, AttrErrorView>(e@),
        },
{
    match parse_attribute(item) {
        Err(e) => Err(e),
        Ok((ident, v)) => {
            if str_eq(ident.as_str(), "id") {
                Ok(TemplateChildAttribute::Id(v))
            } else {
                Err(TemplateAttrError::UnknownItemMeta(ident))
            }
        },
    }
}

fn find_attribute_meta<'a>(attrs: &'a [AttributeModel], attr_name: &str) -> (res: Result<
    Option<&'a Vec<NestedItem>>,
    TemplateAttrError,
>)
    ensures
        match find_attribute(attrs@, attr_name@, 0) {
            None => res == Ok::<Option<&'a Vec<NestedItem>>, TemplateAttrError>(None),
            Some(i) => match attrs@[i].meta {
                Err(msg) => res matches Err(e) && e@ == AttrErrorView::Parse(msg@),
                Ok(AttrMeta::List(items)) => res matches Ok(Some(l)) && l@ == items@,
                Ok(_) => res matches Err(e) && e@ == AttrErrorView::NotAList,
            },
        },
{
    let n = attrs.len();
    let mut i: usize = 0;
    while i < n
        invariant
            n == attrs@.len(),
            i <= n,
            find_attribute(attrs@, attr_name@, 0) == find_attribute(attrs@, attr_name@, i as int),
        decreases n - i,
    {
        if ident_matches(&attrs[i].ident, attr_name) {
            return match &attrs[i].meta {
                Err(msg) => Err(TemplateAttrError::Parse(msg.clone())),
                Ok(AttrMeta::List(items)) => Ok(Some(items)),
                Ok(_) => Err(TemplateAttrError::NotAList),
            };
        }
        i = i + 1;
    }
    Ok(None)
}

/// Reads the first attribute named `attr_name`: the ids that its items give,
/// in order, or the first reason why it cannot be read. With no such
/// attribute there are no ids.
pub fn parse_template_child_attributes(attr_name: &str, attrs: &[AttributeModel]) -> (res: Result<
    Vec<TemplateChildAttribute>,
    TemplateAttrError,
>)
    ensures
        match res {
            Ok(v) => attribute_ids(attrs@, attr_name@) == Ok::<Seq<Seq<char>>, AttrErrorView>(ids_of(v@)),
            Err(e) => attribute_ids(attrs@, attr_name@) == Err::<Seq<Seq<char>>, AttrErrorView>(e@),
        },
{
    let items = match find_attribute_meta(attrs, attr_name) {
        Err(e) => return Err(e),
        Ok(None) => {
            let v: Vec<TemplateChildAttribute> = Vec::new();
            assert(ids_of(v@) =~= Seq::<Seq<char>>::empty());
            return Ok(v);
        },
        Ok(Some(items)) => items,
    };
    let mut out: Vec<TemplateChildAttribute> = Vec::new();
    let n = items.len();
    assert(attribute_ids(attrs@, attr_name@) == child_attributes(items@));
    let mut i: usize = 0;
    assert(items@.take(0) =~= Seq::<NestedItem>::empty());
    assert(ids_of(out@) =~= Seq::<Seq<char>>::empty());
    while i < n
        invariant
            n == items@.len(),
            i <= n,
            attribute_ids(attrs@, attr_name@) == child_attributes(items@),
            child_attributes(items@.take(i as int)) == Ok::<Seq<Seq<char>>, AttrErrorView>(ids_of(out@)),
        decreases n - i,
    {
        assert(items@.take(i + 1).drop_last() =~= items@.take(i as int));
        assert(items@.take(i + 1).last() == items@[i as int]);
        match parse_template_child_attribute(&items[i]) {
            Err(e) => {
                proof {
                    lemma_first_error_stays(items@, i + 1);
                }
                return Err(e);
            },
            Ok(a) => {
                let ghost prev = out@;
                out.push(a);
                assert(ids_of(out@) =~= ids_of(prev).push(
                    match a {
                        TemplateChildAttribute::Id(s) => s@,
                    },
                ));
            },
        }
        i = i + 1;
    }
    assert(items@.take(n as int) =~= items@);
    Ok(out)
}

/// The search for an attribute from `i` on finds one exactly when some
/// attribute at or after `i` has the path sought, and what it finds is the
/// first such attribute.
pub proof fn lemma_find_attribute(attrs: Seq<AttributeModel>, name: Seq<char>, i: int)
    requires
        0 <= i,
    ensures
        (find_attribute(attrs, name, i) is Some) <==> (exists|j: int|
            i <= j < attrs.len() && #[trigger] ident_is(attrs[j].ident, name)),
        find_attribute(attrs, name, i) matches Some(k) ==> {
            &&& i <= k < attrs.len()
            &&& ident_is(attrs[k].ident, name)
            &&& forall|j: int| i <= j < k ==> !#[trigger] ident_is(attrs[j].ident, name)
        },
    decreases attrs.len() - i,
{
    if i < attrs.len() && !ident_is(attrs[i].ident, name) {
        lemma_find_attribute(attrs, name, i + 1);
        if exists|j: int| i <= j < attrs.len() && #[trigger] ident_is(attrs[j].ident, name) {
            let j = choose|j: int| i <= j < attrs.len() && #[trigger] ident_is(attrs[j].ident, name);
            assert(j != i);
        }
    }
}

/// A field is marked as a template child exactly when one of its
/// attributes, wherever it stands among them, has the path `template_child`.
pub proof fn lemma_marked_by_any_attribute(f: FieldModel)
    ensures
        is_template_child(f) <==> (exists|i: int|
            0 <= i < f.attrs@.len() && #[trigger] ident_is(f.attrs@[i].ident, "template_child"@)),
{
    lemma_find_attribute(f.attrs@, "template_child"@, 0);
}

/// Every field marked as a template child, and only such a field, gets a
/// binding, in field order; a list of fields with one more field at the end
/// gets one more binding exactly when that field is marked.
pub proof fn lemma_bindings_of_marked(fields: Seq<FieldModel>, f: FieldModel)
    ensures
        bindings(fields.push(f)) == (if exists|i: int|
            0 <= i < f.attrs@.len() && #[trigger] ident_is(f.attrs@[i].ident, "template_child"@) {
            bindings(fields).push((f.ident->0@, child_id(f)))
        } else {
            bindings(fields)
        }),
        bindings(Seq::<FieldModel>::empty()) == Seq::<(Seq<char>, Seq<char>)>::empty(),
{
    lemma_marked_by_any_attribute(f);
    assert(fields.push(f).drop_last() =~= fields);
}

fn is_marked(f: &FieldModel) -> (res: bool)
    ensures
        res == is_template_child(*f),
{
    let n = f.attrs.len();
    let mut i: usize = 0;
    while i < n
        invariant
            n == f.attrs@.len(),
            i <= n,
            find_attribute(f.attrs@, "template_child"@, 0) == find_attribute(
                f.attrs@,
                "template_child"@,
                i as int,
            ),
        decreases n - i,
    {
        if ident_matches(&f.attrs[i].ident, "template_child") {
            return true;
        }
        i = i + 1;
    }
    false
}

fn child_id_of(f: &FieldModel) -> (res: String)
    ensures
        res@ == child_id(*f),
{
    let mut value_id = String::new();
    if let Ok(attrs) = parse_template_child_attributes("template_child", f.attrs.as_slice()) {
        let n = attrs.len();
        let mut i: usize = 0;
        while i < n
            invariant
                n == attrs@.len(),
                i <= n,
                value_id@ == (if i == 0 {
                    Seq::<char>::empty()
                } else {
                    ids_of(attrs@)[i - 1]
                }),
            decreases n - i,
        {
            match &attrs[i] {
                TemplateChildAttribute::Id(id) => {
                    value_id = id.clone();
                },
            }
            i = i + 1;
        }
    }
    value_id
}

/// The bindings of the fields marked as template children: for each, in
/// field order, its name and the id of its child; the id is the last one that
/// its attribute gives, or empty where it gives none or cannot be read.
pub fn gen_template_child_bindings(fields: &[FieldModel]) -> (res: Vec<TemplateChildBinding>)
    requires
        children_named(fields@),
    ensures
        bindings_view(res@) == bindings(fields@),
{
    let mut out: Vec<TemplateChildBinding> = Vec::new();
    let n = fields.len();
    let mut i: usize = 0;
    assert(fields@.take(0) =~= Seq::<FieldModel>::empty());
    assert(bindings_view(out@) =~= Seq::<(Seq<char>, Seq<char>)>::empty());
    while i < n
        invariant
            n == fields@.len(),
            i <= n,
            children_named(fields@),
            bindings_view(out@) == bindings(fields@.take(i as int)),
        decreases n - i,
    {
        let f = &fields[i];
        assert(fields@.take(i + 1).drop_last() =~= fields@.take(i as int));
        assert(fields@.take(i + 1).last() == fields@[i as int]);
        if is_marked(f) {
            let field = match &f.ident {
                Some(name) => name.clone(),
                None => {
                    proof {
                        assert(is_template_child(fields@[i as int]));
                    }
                    String::new()
                },
            };
            let id = child_id_of(f);
            let ghost prev = out@;
            out.push(TemplateChildBinding { field, id });
            assert(bindings_view(out@) =~= bindings_view(prev).push((field@, id@)));
        }
        i = i + 1;
    }
    assert(fields@.take(n as int) =~= fields@);
    out
}

/// The template-child bindings that deriving a composite template makes for
/// an item: those of its fields where it is a struct.
pub fn impl_composite_template(data: &DeriveData) -> (res: Result<
    Vec<TemplateChildBinding>,
    CompositeTemplateError,
>)
    requires
        match data {
            DeriveData::Struct(fields) => children_named(fields@),
            _ => true,
        },
    ensures
        match data {
            DeriveData::Struct(fields) => res matches Ok(v) && bindings_view(v@) == bindings(
                fields@,
            ),
            _ => res == Err::<Vec<TemplateChildBinding>, CompositeTemplateError>(
                CompositeTemplateError::NotAStruct,
            ),
        },
{
    match data {
        DeriveData::Struct(fields) => Ok(gen_template_child_bindings(fields.as_slice())),
        _ => Err(CompositeTemplateError::NotAStruct),
    }
}

impl CompositeTemplateError {
    /// The message of the error.
    pub fn message(&self) -> (res: String)
        ensures
            res@ == "derive(CompositeTemplate) only supports structs"@,
    {
        String::from_str("derive(CompositeTemplate) only supports structs")
    }
}

impl TemplateAttrError {
    /// The message of the error.
    pub fn message(&self) -> (res: String)
        ensures
            match self {
                TemplateAttrError::Parse(msg) => res@ == msg@,
                TemplateAttrError::NotAList => res@ == "wrong meta type"@,
                TemplateAttrError::NotNestedMeta => res@ == "wrong meta type: not a NestedMeta::Meta"@,
                TemplateAttrError::NotNameValue => res@ == "wrong meta type: not a Meta::NameValue"@,
                TemplateAttrError::NotStringLiteral => res@ == "wrong meta type: not a Lit::Str"@,
                TemplateAttrError::MissingIdent => res@ == "missing ident"@,
                TemplateAttrError::UnknownItemMeta(name) => res@ == "Unknown item meta "@ + name@,
            },
    {
        match self {
            TemplateAttrError::Parse(msg) => msg.clone(),
            TemplateAttrError::NotAList => String::from_str("wrong meta type"),
            TemplateAttrError::NotNestedMeta => String::from_str("wrong meta type: not a NestedMeta::Meta"),
            TemplateAttrError::NotNameValue => String::from_str("wrong meta type: not a Meta::NameValue"),
            TemplateAttrError::NotStringLiteral => String::from_str("wrong meta type: not a Lit::Str"),
            TemplateAttrError::MissingIdent => String::from_str("missing ident"),
            TemplateAttrError::UnknownItemMeta(name) => {
                let mut s = String::from_str("Unknown item meta ");
                s.append(name.as_str());
                s
            },
        }
    }
}

} // verus!
