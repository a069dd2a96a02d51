use gpu_shell::inbuilt::setup::TextureFormat;
use gpu_shell::inbuilt::vertex_package::VertexPackage;
use gpu_shell::packages::test_render_pipeline::BlendState;
use gpu_shell::packages::test_render_pipeline::Face;
use gpu_shell::packages::test_render_pipeline::FrontFace;
use gpu_shell::packages::test_render_pipeline::PrimitiveTopology;
use gpu_shell::packages::test_render_pipeline::RenderPass;
use gpu_shell::packages::test_render_pipeline::Rgba8;
use gpu_shell::packages::test_render_pipeline::TestRenderPipeline;

#[test]
fn vertex_package_keeps_its_counts() {
    let package = VertexPackage::new(4, 6);
    assert_eq!(package.num_vertices(), 4);
    assert_eq!(package.num_indices(), 6);
}

#[test]
fn pipeline_state_is_fixed() {
    let format = TextureFormat::Other { code: 3, srgb: true };
    let pipeline = TestRenderPipeline::new(VertexPackage::new(4, 6), format);
    assert_eq!(pipeline.vertex_package, VertexPackage::new(4, 6));
    assert_eq!(pipeline.state.target_format, format);
    assert_eq!(pipeline.state.blend, BlendState::Replace);
    assert_eq!(pipeline.state.topology, PrimitiveTopology::TriangleList);
    assert_eq!(pipeline.state.front_face, FrontFace::Ccw);
    assert_eq!(pipeline.state.cull_mode, Some(Face::Back));
    assert_eq!(pipeline.state.sample_count, 1);
    assert!(!pipeline.state.depth_stencil);
}

#[test]
fn render_pass_clears_to_opaque_black_and_draws_every_index_once() {
    let format = TextureFormat::Other { code: 3, srgb: true };
    let pipeline = TestRenderPipeline::new(VertexPackage::new(4, 6), format);
    assert_eq!(
        pipeline.render_pass(42),
        RenderPass {
            target: 42,
            clear: Rgba8 { r: 0, g: 0, b: 0, a: 255 },
            first_index: 0,
            end_index: 6,
            base_vertex: 0,
            instances: 1,
        }
    );
}

#[test]
fn render_pass_of_empty_geometry_draws_nothing() {
    let format = TextureFormat::Other { code: 0, srgb: false };
    let pipeline = TestRenderPipeline::new(VertexPackage::new(0, 0), format);
    let pass = pipeline.render_pass(0);
    assert_eq!(pass.first_index, 0);
    assert_eq!(pass.end_index, 0);
}
