use vstd::prelude::*;

verus! {

broadcast use vstd::std_specs::vec::axiom_vec_index_decreases;

/// The kind tag a schema node may carry.
#[derive(Clone, Copy, PartialEq, Eq, Structural, Debug)]
pub enum SchemaKind {
    Object,
    Array,
    Text,
    Number,
    Integer,
    Boolean,
}

/// A schema node or a reference to a named component, as the already-parsed
/// document supplies it.
#[derive(Debug)]
pub enum SchemaOrRef {
    Reference { ref_path: String },
    Inline(SchemaNode),
}

/// One named property of an object schema.
#[derive(Debug)]
pub struct Property {
    pub name: String,
    pub schema: SchemaOrRef,
}

/// A schema node of the document: an optional title, an optional kind tag,
/// an exclusive-choice set, two flags recording the presence of the
/// unsupported combinators, named properties with their required-name set,
/// and at most one element schema (an empty vector means none is given).
#[derive(Debug)]
pub struct SchemaNode {
    pub title: Option<String>,
    pub kind: Option<SchemaKind>,
    pub one_of: Vec<SchemaOrRef>,
    pub has_all_of: bool,
    pub has_any_of: bool,
    pub properties: Vec<Property>,
    pub required: Vec<String>,
    pub items: Vec<SchemaOrRef>,
}

/// Model of a [`SchemaOrRef`].
pub enum SchemaOrRefV {
    Reference { ref_path: Seq<char> },
    Inline(SchemaNodeV),
}

/// Model of a [`Property`].
pub struct PropertyV {
    pub name: Seq<char>,
    pub schema: SchemaOrRefV,
}

/// Model of a [`SchemaNode`].
pub struct SchemaNodeV {
    pub title: Option<Seq<char>>,
    pub kind: Option<SchemaKind>,
    pub one_of: Seq<SchemaOrRefV>,
    pub has_all_of: bool,
    pub has_any_of: bool,
    pub properties: Seq<PropertyV>,
    pub required: Seq<Seq<char>>,
    pub items: Seq<SchemaOrRefV>,
}

/// Model of a [`SchemaOrRef`], defined recursively over the schema tree.
pub open spec fn sor_dv(s: SchemaOrRef) -> SchemaOrRefV
    decreases s,
{
    match s {
        SchemaOrRef::Reference { ref_path } => SchemaOrRefV::Reference { ref_path: ref_path@ },
        SchemaOrRef::Inline(n) => SchemaOrRefV::Inline(node_dv(n)),
    }
}

/// Model of a [`SchemaNode`].
pub open spec fn node_dv(n: SchemaNode) -> SchemaNodeV
    decreases n,
{
    SchemaNodeV {
        title: match n.title {
            Some(t) => Some(t@),
            None => None,
        },
        kind: n.kind,
        one_of: sors_dv(n.one_of, 0),
        has_all_of: n.has_all_of,
        has_any_of: n.has_any_of,
        properties: props_dv(n.properties, 0),
        required: n.required.deep_view(),
        items: sors_dv(n.items, 0),
    }
}

/// Models of the schemas of a vector, from index `i` on.
pub open spec fn sors_dv(v: Vec<SchemaOrRef>, i: int) -> Seq<SchemaOrRefV>
    decreases v, v@.len() - i,
{
    if i < 0 || i >= v@.len() {
        Seq::empty()
    } else {
        seq![sor_dv(v[i])] + sors_dv(v, i + 1)
    }
}

/// Model of a [`Property`].
pub open spec fn prop_dv(p: Property) -> PropertyV
    decreases p,
{
    PropertyV { name: p.name@, schema: sor_dv(p.schema) }
}

/// Models of the properties of a vector, from index `i` on.
pub open spec fn props_dv(v: Vec<Property>, i: int) -> Seq<PropertyV>
    decreases v, v@.len() - i,
{
    if i < 0 || i >= v@.len() {
        Seq::empty()
    } else {
        seq![prop_dv(v[i])] + props_dv(v, i + 1)
    }
}

impl DeepView for SchemaOrRef {
    type V = SchemaOrRefV;

    open spec fn deep_view(&self) -> SchemaOrRefV {
        sor_dv(*self)
    }
}

impl DeepView for SchemaNode {
    type V = SchemaNodeV;

    open spec fn deep_view(&self) -> SchemaNodeV {
        node_dv(*self)
    }
}

impl DeepView for Property {
    type V = PropertyV;

    open spec fn deep_view(&self) -> PropertyV {
        prop_dv(*self)
    }
}

/// `sors_dv` lists the model of each schema in order.
pub proof fn lemma_sors_dv(v: Vec<SchemaOrRef>, i: int)
    requires
        0 <= i <= v@.len(),
    ensures
        sors_dv(v, i).len() == v@.len() - i,
        forall|k: int| i <= k < v@.len() ==> sors_dv(v, i)[k - i] == sor_dv(v@[k]),
    decreases v@.len() - i,
{
    if i < v@.len() {
        lemma_sors_dv(v, i + 1);
    }
}

/// The model of a whole schema vector is its element-wise deep view.
pub proof fn lemma_sors_dv_is_deep_view(v: Vec<SchemaOrRef>)
    ensures
        sors_dv(v, 0) =~= v.deep_view(),
{
    lemma_sors_dv(v, 0);
}

/// `props_dv` lists the model of each property in order.
pub proof fn lemma_props_dv(v: Vec<Property>, i: int)
    requires
        0 <= i <= v@.len(),
    ensures
        props_dv(v, i).len() == v@.len() - i,
        forall|k: int| i <= k < v@.len() ==> props_dv(v, i)[k - i] == prop_dv(v@[k]),
    decreases v@.len() - i,
{
    if i < v@.len() {
        lemma_props_dv(v, i + 1);
    }
}

/// The model of a whole property vector is its element-wise deep view.
pub proof fn lemma_props_dv_is_deep_view(v: Vec<Property>)
    ensures
        props_dv(v, 0) =~= v.deep_view(),
{
    lemma_props_dv(v, 0);
}

/// Where an operation parameter lives.
#[derive(Clone, Copy, PartialEq, Eq, Structural, Debug)]
pub enum ParamLoc {
    InPath,
    InQuery,
    InHeader,
    InCookie,
}

/// An operation parameter, already resolved: its name, location, required
/// flag, and at most one inline schema (an empty vector means none).
#[derive(Debug)]
pub struct Param {
    pub name: String,
    pub loc: ParamLoc,
    pub required: bool,
    pub schema: Vec<SchemaNode>,
}

/// Model of a [`Param`].
pub struct ParamV {
    pub name: Seq<char>,
    pub loc: ParamLoc,
    pub required: bool,
    pub schema: Seq<SchemaNodeV>,
}

impl DeepView for Param {
    type V = ParamV;

    open spec fn deep_view(&self) -> ParamV {
        ParamV {
            name: self.name@,
            loc: self.loc,
            required: self.required,
            schema: self.schema.deep_view(),
        }
    }
}

/// One media-type entry of a request body: the media-type name and at most
/// one schema (an empty vector means none is given).
#[derive(Debug)]
pub struct MediaEntry {
    pub name: String,
    pub schema: Vec<SchemaOrRef>,
}

/// Model of a [`MediaEntry`].
pub struct MediaEntryV {
    pub name: Seq<char>,
    pub schema: Seq<SchemaOrRefV>,
}

impl DeepView for MediaEntry {
    type V = MediaEntryV;

    open spec fn deep_view(&self) -> MediaEntryV {
        MediaEntryV { name: self.name@, schema: self.schema.deep_view() }
    }
}

/// A request body, already resolved: its content entries in document order.
#[derive(Debug)]
pub struct RequestBody {
    pub content: Vec<MediaEntry>,
}

/// Model of a [`RequestBody`].
pub struct RequestBodyV {
    pub content: Seq<MediaEntryV>,
}

impl DeepView for RequestBody {
    type V = RequestBodyV;

    open spec fn deep_view(&self) -> RequestBodyV {
        RequestBodyV { content: self.content.deep_view() }
    }
}

/// One operation of a path: its parameters in document order and its
/// optional request body.
#[derive(Debug)]
pub struct Operation {
    pub parameters: Vec<Param>,
    pub request_body: Option<RequestBody>,
}

/// Model of an [`Operation`].
pub struct OperationV {
    pub parameters: Seq<ParamV>,
    pub request_body: Option<RequestBodyV>,
}

impl DeepView for Operation {
    type V = OperationV;

    open spec fn deep_view(&self) -> OperationV {
        OperationV {
            parameters: self.parameters.deep_view(),
            request_body: self.request_body.deep_view(),
        }
    }
}

/// The per-verb operations of one path template.
#[derive(Debug)]
pub struct PathItem {
    pub get: Option<Operation>,
    pub post: Option<Operation>,
    pub put: Option<Operation>,
    pub delete: Option<Operation>,
    pub patch: Option<Operation>,
    pub head: Option<Operation>,
    pub options: Option<Operation>,
    pub trace: Option<Operation>,
}

/// Model of a [`PathItem`].
pub struct PathItemV {
    pub get: Option<OperationV>,
    pub post: Option<OperationV>,
    pub put: Option<OperationV>,
    pub delete: Option<OperationV>,
    pub patch: Option<OperationV>,
    pub head: Option<OperationV>,
    pub options: Option<OperationV>,
    pub trace: Option<OperationV>,
}

impl DeepView for PathItem {
    type V = PathItemV;

    open spec fn deep_view(&self) -> PathItemV {
        PathItemV {
            get: self.get.deep_view(),
            post: self.post.deep_view(),
            put: self.put.deep_view(),
            delete: self.delete.deep_view(),
            patch: self.patch.deep_view(),
            head: self.head.deep_view(),
            options: self.options.deep_view(),
            trace: self.trace.deep_view(),
        }
    }
}

/// One path of the document: its brace-parameter template and its per-verb
/// operations.
#[derive(Debug)]
pub struct PathEntry {
    pub template: String,
    pub item: PathItem,
}

/// Model of a [`PathEntry`].
pub struct PathEntryV {
    pub template: Seq<char>,
    pub item: PathItemV,
}

impl DeepView for PathEntry {
    type V = PathEntryV;

    open spec fn deep_view(&self) -> PathEntryV {
        PathEntryV { template: self.template@, item: self.item.deep_view() }
    }
}

/// One named component schema of the document.
#[derive(Debug)]
pub struct ComponentEntry {
    pub name: String,
    pub schema: SchemaOrRef,
}

/// Model of a [`ComponentEntry`].
pub struct ComponentEntryV {
    pub name: Seq<char>,
    pub schema: SchemaOrRefV,
}

impl DeepView for ComponentEntry {
    type V = ComponentEntryV;

    open spec fn deep_view(&self) -> ComponentEntryV {
        ComponentEntryV { name: self.name@, schema: sor_dv(self.schema) }
    }
}

/// The API schema document, handed in already parsed and resolved: paths in
/// document order, and the named component schemas in document order.
#[derive(Debug)]
pub struct Document {
    pub paths: Vec<PathEntry>,
    pub components: Vec<ComponentEntry>,
}

/// Model of a [`Document`].
pub struct DocumentV {
    pub paths: Seq<PathEntryV>,
    pub components: Seq<ComponentEntryV>,
}

impl DeepView for Document {
    type V = DocumentV;

    open spec fn deep_view(&self) -> DocumentV {
        DocumentV { paths: self.paths.deep_view(), components: self.components.deep_view() }
    }
}

} // verus!
