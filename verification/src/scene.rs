//! Setting the scene up: all that has to succeed before the first frame.
//!
//! A failure here is final. Nothing is retried and nothing is put in the
//! place of what is missing: either there is a whole scene or there is none.

use vstd::prelude::*;
use crate::asset::{decode_image, decode_mesh, decoded, image_of, png_rgba, MeshArrays, ParseError};
use crate::camera::{Camera, CameraState, InputState};
use crate::frame::{DrawData, FrameLoop, LoopModel, Phase};
use crate::mesh::{assembled, DrawSlice, Mesh, MeshError, MeshModel};
use crate::notation::{reading, Reading};
use crate::pipeline::{
    build_pipeline, built, fragment_view, vertex_attributes, vertex_layout, vertex_view,
    AttributeModel, ColorFormat, CompileError, DepthFormat, FragmentStage, OutputFormats,
    PipelineModel, PipelineState, Refusal, VertexStage,
};
use crate::texture::{
    texture_for, texture_info, DecodeError, PixelBuffer, Pixels, SamplerMode, TextureError,
    TextureInfo,
};

verus! {

/// How far the eye stands off its target, along each axis: four units.
pub const DISTANCE: i64 = 4000;

/// How far one frame moves the camera for each held key: a fiftieth of a
/// unit.
pub const SENSITIVITY: i64 = 20;

/// The targets of the scene: a colour target in sRGB and a depth target.
#[verifier::allow_in_spec]
pub fn formats() -> OutputFormats
    returns
        (OutputFormats { color: ColorFormat::Srgba8, depth: Some(DepthFormat::DepthStencil) }),
{
    OutputFormats { color: ColorFormat::Srgba8, depth: Some(DepthFormat::DepthStencil) }
}

/// Why there is no scene.
#[derive(Debug)]
pub enum SetupError {
    /// The shaders, the vertex layout and the outputs make no pipeline.
    Pipeline(CompileError),
    /// The text is no description of a mesh.
    Mesh(ParseError),
    /// The arrays of the description make no mesh.
    MeshShape(MeshError),
    /// The bytes are no image.
    Texture(DecodeError),
    /// The device cannot hold the image.
    TextureSize(TextureError),
}

/// Why there is no scene, as a mathematical value.
pub enum Failure {
    Pipeline(Refusal),
    Mesh(ParseError),
    MeshShape(MeshError),
    Texture(DecodeError),
    TextureSize(TextureError),
}

impl View for SetupError {
    type V = Failure;

    open spec fn view(&self) -> Failure {
        match self {
            SetupError::Pipeline(e) => Failure::Pipeline(e@),
            SetupError::Mesh(e) => Failure::Mesh(*e),
            SetupError::MeshShape(e) => Failure::MeshShape(*e),
            SetupError::Texture(e) => Failure::Texture(*e),
            SetupError::TextureSize(e) => Failure::TextureSize(*e),
        }
    }
}

/// All that the frames are drawn from.
#[derive(Debug)]
pub struct Scene {
    pub pipeline: PipelineState,
    pub mesh: Mesh,
    pub texture: PixelBuffer,
    pub texture_info: TextureInfo,
    pub sampler: SamplerMode,
    pub frame_loop: FrameLoop,
}

/// A scene as a mathematical value.
pub struct SceneModel {
    pub pipeline: PipelineModel,
    pub mesh: MeshModel,
    pub texture: Pixels,
    pub texture_info: TextureInfo,
    pub sampler: SamplerMode,
    pub frame_loop: LoopModel,
}

impl View for Scene {
    type V = SceneModel;

    open spec fn view(&self) -> SceneModel {
        SceneModel {
            pipeline: self.pipeline@,
            mesh: self.mesh@,
            texture: self.texture@,
            texture_info: self.texture_info,
            sampler: self.sampler,
            frame_loop: self.frame_loop@,
        }
    }
}

/// The contents of a result that holds a scene.
pub open spec fn scene_view(r: Result<Scene, SetupError>) -> Result<SceneModel, Failure> {
    match r {
        Ok(scene) => Ok(scene@),
        Err(e) => Err(e@),
    }
}

/// The loop before its first frame: running, no key held, the camera at the
/// origin, a texture and a depth target bound, and the transform that of the
/// camera.
pub open spec fn first_loop(slice: DrawSlice, width: u32, height: u32) -> LoopModel {
    let camera = Camera { x: 0, y: 0, distance: DISTANCE as int, sensitivity: SENSITIVITY as int };
    LoopModel {
        phase: Phase::Running,
        input: InputState { forward: false, left: false, back: false, right: false },
        camera,
        data: DrawData { textured: true, depth: true, transform: camera.look_at() },
        slice,
        width,
        height,
    }
}

/// The scene that the parts make, or the first of them that fails: the
/// pipeline, the description of the mesh, its arrays, the image, its size.
pub open spec fn prepared(
    vertex: Result<Seq<AttributeModel>, Seq<char>>,
    fragment: Result<Seq<Seq<char>>, Seq<char>>,
    description: Reading,
    image: Option<(u32, u32, Seq<u8>)>,
    width: u32,
    height: u32,
) -> Result<SceneModel, Failure> {
    match built(vertex, fragment, vertex_attributes(), formats()) {
        Err(e) => Err(Failure::Pipeline(e)),
        Ok(pipeline) => match decoded(description) {
            Err(e) => Err(Failure::Mesh(e)),
            Ok((numbers, indices)) => match assembled(numbers, indices) {
                Err(e) => Err(Failure::MeshShape(e)),
                Ok(mesh) => match image_of(image) {
                    Err(e) => Err(Failure::Texture(e)),
                    Ok(texture) => match texture_for(texture) {
                        Err(e) => Err(Failure::TextureSize(e)),
                        Ok(texture_info) => Ok(
                            SceneModel {
                                pipeline,
                                mesh,
                                texture,
                                texture_info,
                                sampler: SamplerMode::Linear,
                                frame_loop: first_loop(mesh.draw_slice(), width, height),
                            },
                        ),
                    },
                },
            },
        },
    }
}

/// Sets the scene up from what the compiler gave for the two shader stages,
/// the text that describes the mesh, the bytes of the texture image and the
/// physical size of the window.
pub fn prepare(
    vertex: Result<VertexStage, String>,
    fragment: Result<FragmentStage, String>,
    description: &str,
    image: &[u8],
    width: u32,
    height: u32,
) -> (r: Result<Scene, SetupError>)
    ensures
        scene_view(r) == prepared(
            vertex_view(vertex),
            fragment_view(fragment),
            reading(description@),
            png_rgba(image@),
            width,
            height,
        ),
{
    let pipeline = match build_pipeline(vertex, fragment, vertex_layout(), formats()) {
        Err(e) => {
            return Err(SetupError::Pipeline(e));
        },
        Ok(pipeline) => pipeline,
    };
    let arrays = match decode_mesh(description) {
        Err(e) => {
            return Err(SetupError::Mesh(e));
        },
        Ok(arrays) => arrays,
    };
    let MeshArrays { vertices, indices } = arrays;
    let mesh = match Mesh::from_arrays(&vertices, indices) {
        Err(e) => {
            return Err(SetupError::MeshShape(e));
        },
        Ok(mesh) => mesh,
    };
    let texture = match decode_image(image) {
        Err(e) => {
            return Err(SetupError::Texture(e));
        },
        Ok(texture) => texture,
    };
    let info = match texture_info(&texture) {
        Err(e) => {
            return Err(SetupError::TextureSize(e));
        },
        Ok(info) => info,
    };
    let camera = match CameraState::new(DISTANCE, SENSITIVITY) {
        Some(camera) => camera,
        None => vstd::pervasive::unreached(),
    };
    let frame_loop = FrameLoop::new(camera, mesh.draw_slice(), true, true, width, height);
    Ok(Scene { pipeline, mesh, texture, texture_info: info, sampler: SamplerMode::Linear, frame_loop })
}

} // verus!
