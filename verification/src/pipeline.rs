//! The pipeline binder: whether two compiled shader stages, a vertex layout
//! and the output formats make a pipeline.
//!
//! The device compiles; the caller brings what the compiler said and what
//! each stage declares. Either everything fits and there is a pipeline, or
//! there is none.

use vstd::prelude::*;

verus! {

/// One field of a vertex as a shader sees it.
#[derive(Debug)]
pub struct Attribute {
    /// The name under which the shader declares it.
    pub name: String,
    /// How many numbers it holds.
    pub components: u8,
}

/// An attribute as a mathematical value.
pub struct AttributeModel {
    pub name: Seq<char>,
    pub components: u8,
}

impl View for Attribute {
    type V = AttributeModel;

    open spec fn view(&self) -> AttributeModel {
        AttributeModel { name: self.name@, components: self.components }
    }
}

/// The attributes of a list, each as a mathematical value.
pub open spec fn attributes_view(list: Seq<Attribute>) -> Seq<AttributeModel> {
    Seq::new(list.len(), |i: int| list[i]@)
}

/// The layout of [`crate::vertex::Vertex`]: a position of four numbers named
/// `a_Pos`, then a texture coordinate of two named `a_Uv`.
pub open spec fn vertex_attributes() -> Seq<AttributeModel> {
    seq![
        AttributeModel { name: "a_Pos"@, components: 4 },
        AttributeModel { name: "a_Uv"@, components: 2 },
    ]
}

/// Makes the layout of [`crate::vertex::Vertex`].
pub fn vertex_layout() -> (r: Vec<Attribute>)
    ensures
        attributes_view(r@) == vertex_attributes(),
{
    let mut layout: Vec<Attribute> = Vec::new();
    layout.push(Attribute { name: "a_Pos".to_owned(), components: 4 });
    layout.push(Attribute { name: "a_Uv".to_owned(), components: 2 });
    assert(attributes_view(layout@) =~= vertex_attributes());
    layout
}

/// The name to which the one colour output of a fragment stage is bound.
pub open spec fn target_name() -> Seq<char> {
    "Target0"@
}

/// How an incoming depth is compared with the stored one.
#[derive(Debug, Clone, Copy, PartialEq, Eq, Structural)]
pub enum Comparison {
    Never,
    Less,
    Equal,
    LessEqual,
    Greater,
    NotEqual,
    GreaterEqual,
    Always,
}

/// What is done with depth when a fragment is drawn.
#[derive(Debug, Clone, Copy, PartialEq, Eq, Structural)]
pub struct DepthPolicy {
    /// A fragment passes where its depth compares so with the stored one.
    pub test: Comparison,
    /// Whether a fragment that passes stores its depth.
    pub write: bool,
}

/// The policy of the scenes with depth: a fragment passes where it is no
/// farther than what is stored, and then stores its depth, so that near
/// faces hide far ones.
#[verifier::allow_in_spec]
pub fn depth_policy() -> DepthPolicy
    returns
        (DepthPolicy { test: Comparison::LessEqual, write: true }),
{
    DepthPolicy { test: Comparison::LessEqual, write: true }
}

/// The format of a colour target.
#[derive(Debug, Clone, Copy, PartialEq, Eq, Structural)]
pub enum ColorFormat {
    Rgba8,
    Srgba8,
}

/// The format of a depth target.
#[derive(Debug, Clone, Copy, PartialEq, Eq, Structural)]
pub enum DepthFormat {
    DepthStencil,
}

/// The targets that a pipeline writes: one colour target and, for scenes
/// with depth, a depth target.
#[derive(Debug, Clone, Copy, PartialEq, Eq, Structural)]
pub struct OutputFormats {
    pub color: ColorFormat,
    pub depth: Option<DepthFormat>,
}

/// What a compiled vertex stage declares: its inputs, in order.
#[derive(Debug)]
pub struct VertexStage {
    pub inputs: Vec<Attribute>,
}

/// What a compiled fragment stage declares: the names of its colour
/// outputs, in order.
#[derive(Debug)]
pub struct FragmentStage {
    pub outputs: Vec<String>,
}

/// Why there is no pipeline.
#[derive(Debug)]
pub enum CompileError {
    /// The vertex stage did not compile; this is what the compiler said.
    Vertex(String),
    /// The fragment stage did not compile; this is what the compiler said.
    Fragment(String),
    /// The inputs of the vertex stage are not the vertex layout.
    LayoutMismatch,
    /// The fragment stage does not declare the one colour output.
    MissingTarget,
}

/// Why there is no pipeline, as a mathematical value.
pub enum Refusal {
    Vertex(Seq<char>),
    Fragment(Seq<char>),
    LayoutMismatch,
    MissingTarget,
}

impl View for CompileError {
    type V = Refusal;

    open spec fn view(&self) -> Refusal {
        match self {
            CompileError::Vertex(said) => Refusal::Vertex(said@),
            CompileError::Fragment(said) => Refusal::Fragment(said@),
            CompileError::LayoutMismatch => Refusal::LayoutMismatch,
            CompileError::MissingTarget => Refusal::MissingTarget,
        }
    }
}

/// A pipeline as a mathematical value.
pub struct PipelineModel {
    pub layout: Seq<AttributeModel>,
    pub formats: OutputFormats,
    pub depth: Option<DepthPolicy>,
}

/// Whether the inputs of a vertex stage are the layout: as many, and each
/// with the same name and the same number of components, in the same order.
pub open spec fn fits_layout(inputs: Seq<AttributeModel>, layout: Seq<AttributeModel>) -> bool {
    &&& inputs.len() == layout.len()
    &&& forall|i: int|
        0 <= i < inputs.len() ==> (#[trigger] inputs[i]).name == layout[i].name && inputs[i].components
            == layout[i].components
}

/// Whether a fragment stage declares exactly the one colour output.
pub open spec fn declares_target(outputs: Seq<Seq<char>>) -> bool {
    outputs.len() == 1 && outputs[0] == target_name()
}

/// The names of a list, each as a mathematical value.
pub open spec fn names_view(list: Seq<String>) -> Seq<Seq<char>> {
    Seq::new(list.len(), |i: int| list[i]@)
}

/// What the compiler gave for the vertex stage, as a mathematical value.
pub open spec fn vertex_view(vertex: Result<VertexStage, String>) -> Result<
    Seq<AttributeModel>,
    Seq<char>,
> {
    match vertex {
        Ok(stage) => Ok(attributes_view(stage.inputs@)),
        Err(said) => Err(said@),
    }
}

/// What the compiler gave for the fragment stage, as a mathematical value.
pub open spec fn fragment_view(fragment: Result<FragmentStage, String>) -> Result<
    Seq<Seq<char>>,
    Seq<char>,
> {
    match fragment {
        Ok(stage) => Ok(names_view(stage.outputs@)),
        Err(said) => Err(said@),
    }
}

/// The pipeline that fitting stages make: it draws the layout into the
/// formats, and tests depth by [`depth_policy`] where there is a depth
/// target.
pub open spec fn linked(layout: Seq<AttributeModel>, formats: OutputFormats) -> PipelineModel {
    PipelineModel {
        layout,
        formats,
        depth: if formats.depth is Some {
            Some(depth_policy())
        } else {
            None
        },
    }
}

/// A compiled, linked and validated pipeline. It cannot be changed.
#[derive(Debug)]
pub struct PipelineState {
    layout: Vec<Attribute>,
    formats: OutputFormats,
    depth: Option<DepthPolicy>,
}

impl View for PipelineState {
    type V = PipelineModel;

    closed spec fn view(&self) -> PipelineModel {
        PipelineModel {
            layout: attributes_view(self.layout@),
            formats: self.formats,
            depth: self.depth,
        }
    }
}

/// The pipeline that the two stages, the layout and the formats make, all or
/// nothing. The first thing that does not fit decides the error: the vertex
/// stage, the fragment stage, the layout, the output.
pub open spec fn built(
    vertex: Result<Seq<AttributeModel>, Seq<char>>,
    fragment: Result<Seq<Seq<char>>, Seq<char>>,
    layout: Seq<AttributeModel>,
    formats: OutputFormats,
) -> Result<PipelineModel, Refusal> {
    match vertex {
        Err(said) => Err(Refusal::Vertex(said)),
        Ok(inputs) => match fragment {
            Err(said) => Err(Refusal::Fragment(said)),
            Ok(outputs) => {
                if !fits_layout(inputs, layout) {
                    Err(Refusal::LayoutMismatch)
                } else if !declares_target(outputs) {
                    Err(Refusal::MissingTarget)
                } else {
                    Ok(linked(layout, formats))
                }
            },
        },
    }
}

/// The contents of a result that holds a pipeline.
pub open spec fn pipeline_view(r: Result<PipelineState, CompileError>) -> Result<
    PipelineModel,
    Refusal,
> {
    match r {
        Ok(state) => Ok(state@),
        Err(e) => Err(e@),
    }
}

impl PipelineState {
    /// The vertex layout that the pipeline was built for.
    pub fn layout(&self) -> (r: &Vec<Attribute>)
        ensures
            attributes_view(r@) == self@.layout,
    {
        &self.layout
    }

    /// The formats of the targets that the pipeline writes.
    pub fn formats(&self) -> (r: OutputFormats)
        ensures
            r == self@.formats,
    {
        self.formats
    }

    /// The depth policy, where the pipeline has a depth target.
    pub fn depth(&self) -> (r: Option<DepthPolicy>)
        ensures
            r == self@.depth,
    {
        self.depth
    }
}

/// Tells whether the inputs of a vertex stage are the layout.
pub fn check_layout(inputs: &Vec<Attribute>, layout: &Vec<Attribute>) -> (ok: bool)
    ensures
        ok == fits_layout(attributes_view(inputs@), attributes_view(layout@)),
{
    if inputs.len() != layout.len() {
        return false;
    }
    let mut i: usize = 0;
    while i < inputs.len()
        invariant
            inputs.len() == layout.len(),
            0 <= i <= inputs.len(),
            forall|j: int|
                0 <= j < i ==> (#[trigger] attributes_view(inputs@)[j]).name == attributes_view(
                    layout@,
                )[j].name && attributes_view(inputs@)[j].components == attributes_view(
                    layout@,
                )[j].components,
        decreases inputs.len() - i,
    {
        if !(inputs[i].name == layout[i].name) || inputs[i].components != layout[i].components {
            assert(attributes_view(inputs@)[i as int].name != attributes_view(layout@)[i as int].name
                || attributes_view(inputs@)[i as int].components != attributes_view(
                layout@,
            )[i as int].components);
            return false;
        }
        i += 1;
    }
    true
}

/// Tells whether a fragment stage declares exactly the one colour output.
pub fn check_target(outputs: &Vec<String>) -> (ok: bool)
    ensures
        ok == declares_target(names_view(outputs@)),
{
    if outputs.len() != 1 {
        return false;
    }
    let wanted = "Target0".to_owned();
    outputs[0] == wanted
}

/// Builds the pipeline, all or nothing. `vertex` and `fragment` are what the
/// compiler gave for each stage: what the stage declares, or what the
/// compiler said against it.
pub fn build_pipeline(
    vertex: Result<VertexStage, String>,
    fragment: Result<FragmentStage, String>,
    layout: Vec<Attribute>,
    formats: OutputFormats,
) -> (r: Result<PipelineState, CompileError>)
    ensures
        pipeline_view(r) == built(
            vertex_view(vertex),
            fragment_view(fragment),
            attributes_view(layout@),
            formats,
        ),
{
    let v = match vertex {
        Err(said) => {
            return Err(CompileError::Vertex(said));
        },
        Ok(v) => v,
    };
    let f = match fragment {
        Err(said) => {
            return Err(CompileError::Fragment(said));
        },
        Ok(f) => f,
    };
    if !check_layout(&v.inputs, &layout) {
        return Err(CompileError::LayoutMismatch);
    }
    if !check_target(&f.outputs) {
        return Err(CompileError::MissingTarget);
    }
    let depth = match formats.depth {
        Some(_) => Some(depth_policy()),
        None => None,
    };
    Ok(PipelineState { layout, formats, depth })
}

} // verus!
