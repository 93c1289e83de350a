use vstd::prelude::*;

verus! {

/// How the depth of field effect looks.
#[derive(Debug, Clone, Copy, PartialEq, Eq, Structural)]
pub enum DepthOfFieldMode {
    /// Circles of confusion make spots of light; the default.
    Bokeh,
    /// Out-of-focus areas are simply blurred.
    Gaussian,
}

impl Default for DepthOfFieldMode {
    fn default() -> (m: Self)
        ensures
            m == DepthOfFieldMode::Bokeh,
    {
        DepthOfFieldMode::Bokeh
    }
}

/// One render pass of the depth of field shader.
#[derive(Debug, Clone, Copy, PartialEq, Eq, Hash, Structural)]
pub enum DofPass {
    /// The first, horizontal, Gaussian blur pass.
    GaussianHorizontal,
    /// The second, vertical, Gaussian blur pass.
    GaussianVertical,
    /// The first bokeh pass: vertical and diagonal.
    BokehPass0,
    /// The second bokeh pass: two diagonals.
    BokehPass1,
}

/// A key that identifies one specialised depth of field pipeline.
#[derive(Debug, Clone, Copy, PartialEq, Eq, Hash, Structural)]
pub struct DepthOfFieldPipelineKey {
    /// Which pass the pipeline draws.
    pub pass: DofPass,
    /// Whether the view renders in HDR.
    pub hdr: bool,
    /// Whether the render target is multisampled.
    pub multisample: bool,
}

/// The two passes a mode draws, in order.
pub open spec fn spec_mode_passes(mode: DepthOfFieldMode) -> (DofPass, DofPass) {
    match mode {
        DepthOfFieldMode::Gaussian => (DofPass::GaussianHorizontal, DofPass::GaussianVertical),
        DepthOfFieldMode::Bokeh => (DofPass::BokehPass0, DofPass::BokehPass1),
    }
}

/// The pipeline keys specialised for a view: one per pass of its mode, in order.
pub fn prepare_depth_of_field_pipelines(mode: DepthOfFieldMode, hdr: bool, multisample: bool) -> (keys: (
    DepthOfFieldPipelineKey,
    DepthOfFieldPipelineKey,
))
    ensures
        keys.0 == (DepthOfFieldPipelineKey { pass: spec_mode_passes(mode).0, hdr, multisample }),
        keys.1 == (DepthOfFieldPipelineKey { pass: spec_mode_passes(mode).1, hdr, multisample }),
{
    let (first, second) = match mode {
        DepthOfFieldMode::Gaussian => (DofPass::GaussianHorizontal, DofPass::GaussianVertical),
        DepthOfFieldMode::Bokeh => (DofPass::BokehPass0, DofPass::BokehPass1),
    };
    (
        DepthOfFieldPipelineKey { pass: first, hdr, multisample },
        DepthOfFieldPipelineKey { pass: second, hdr, multisample },
    )
}

/// Whether a pass reads the two outputs of the previous one.
pub open spec fn spec_dual_input(pass: DofPass) -> bool {
    pass == DofPass::BokehPass1
}

/// Whether a pass writes a second, auxiliary, colour target.
pub open spec fn spec_dual_output(pass: DofPass) -> bool {
    pass == DofPass::BokehPass0
}

/// What the render node needs to know of one pass.
#[derive(Debug, Clone, Copy)]
pub struct DepthOfFieldPipelineRenderInfo {
    pub pass_label: &'static str,
    pub view_bind_group_label: &'static str,
    pub pass: DofPass,
    pub is_dual_input: bool,
    pub is_dual_output: bool,
}

/// The labels of a pass's render pass and its view bind group.
pub open spec fn spec_pass_labels(pass: DofPass) -> (Seq<char>, Seq<char>) {
    match pass {
        DofPass::GaussianHorizontal => (
            "depth of field pass (horizontal Gaussian)"@,
            "depth of field view bind group (horizontal Gaussian)"@,
        ),
        DofPass::GaussianVertical => (
            "depth of field pass (vertical Gaussian)"@,
            "depth of field view bind group (vertical Gaussian)"@,
        ),
        DofPass::BokehPass0 => (
            "depth of field pass (bokeh pass 0)"@,
            "depth of field view bind group (bokeh pass 0)"@,
        ),
        DofPass::BokehPass1 => (
            "depth of field pass (bokeh pass 1)"@,
            "depth of field view bind group (bokeh pass 1)"@,
        ),
    }
}

/// The render information of one pass.
pub open spec fn spec_render_info_ok(info: DepthOfFieldPipelineRenderInfo, pass: DofPass) -> bool {
    &&& info.pass == pass
    &&& info.pass_label@ == spec_pass_labels(pass).0
    &&& info.view_bind_group_label@ == spec_pass_labels(pass).1
    &&& info.is_dual_input == spec_dual_input(pass)
    &&& info.is_dual_output == spec_dual_output(pass)
}

fn render_info(pass: DofPass) -> (info: DepthOfFieldPipelineRenderInfo)
    ensures
        spec_render_info_ok(info, pass),
{
    match pass {
        DofPass::GaussianHorizontal => DepthOfFieldPipelineRenderInfo {
            pass_label: "depth of field pass (horizontal Gaussian)",
            view_bind_group_label: "depth of field view bind group (horizontal Gaussian)",
            pass,
            is_dual_input: false,
            is_dual_output: false,
        },
        DofPass::GaussianVertical => DepthOfFieldPipelineRenderInfo {
            pass_label: "depth of field pass (vertical Gaussian)",
            view_bind_group_label: "depth of field view bind group (vertical Gaussian)",
            pass,
            is_dual_input: false,
            is_dual_output: false,
        },
        DofPass::BokehPass0 => DepthOfFieldPipelineRenderInfo {
            pass_label: "depth of field pass (bokeh pass 0)",
            view_bind_group_label: "depth of field view bind group (bokeh pass 0)",
            pass,
            is_dual_input: false,
            is_dual_output: true,
        },
        DofPass::BokehPass1 => DepthOfFieldPipelineRenderInfo {
            pass_label: "depth of field pass (bokeh pass 1)",
            view_bind_group_label: "depth of field view bind group (bokeh pass 1)",
            pass,
            is_dual_input: true,
            is_dual_output: false,
        },
    }
}

/// The information the render node needs for the two passes of a mode, in order.
pub fn pipeline_render_info(mode: DepthOfFieldMode) -> (infos: [DepthOfFieldPipelineRenderInfo; 2])
    ensures
        spec_render_info_ok(infos[0], spec_mode_passes(mode).0),
        spec_render_info_ok(infos[1], spec_mode_passes(mode).1),
{
    match mode {
        DepthOfFieldMode::Gaussian => [
            render_info(DofPass::GaussianHorizontal),
            render_info(DofPass::GaussianVertical),
        ],
        DepthOfFieldMode::Bokeh => [render_info(DofPass::BokehPass0), render_info(DofPass::BokehPass1)],
    }
}

/// The bind group layout a pass reads its view inputs through.
#[derive(Debug, Clone, Copy, PartialEq, Eq, Structural)]
pub enum ViewLayout {
    SingleInput,
    DualInput,
}

/// A shader definition switched on for a pipeline.
#[derive(Debug, Clone, Copy, PartialEq, Eq, Structural)]
pub enum ShaderDef {
    DualInput,
    Multisampled,
}

/// How one depth of field pipeline is built.
#[derive(Debug, Clone)]
pub struct DepthOfFieldPipelineSpec {
    /// The view bind group layout (group 0); group 1 is always the global one.
    pub view_layout: ViewLayout,
    /// How many colour targets the pass writes; all have the view's format.
    pub color_targets: usize,
    /// Whether the targets have the HDR format rather than the default one.
    pub hdr_format: bool,
    pub shader_defs: Vec<ShaderDef>,
    pub entry_point: &'static str,
}

/// The fragment entry point of a pass.
pub open spec fn spec_entry_point(pass: DofPass) -> Seq<char> {
    match pass {
        DofPass::GaussianHorizontal => "gaussian_horizontal"@,
        DofPass::GaussianVertical => "gaussian_vertical"@,
        DofPass::BokehPass0 => "bokeh_pass_0"@,
        DofPass::BokehPass1 => "bokeh_pass_1"@,
    }
}

/// The shader definitions of a pipeline: dual input for the second bokeh pass, then
/// multisampling where the target is multisampled.
pub open spec fn spec_shader_defs(key: DepthOfFieldPipelineKey) -> Seq<ShaderDef> {
    let first = if spec_dual_input(key.pass) {
        seq![ShaderDef::DualInput]
    } else {
        Seq::empty()
    };
    if key.multisample {
        first.push(ShaderDef::Multisampled)
    } else {
        first
    }
}

/// Builds the pipeline for a key. The second bokeh pass needs the view's dual-input
/// layout, which exists only for views in bokeh mode.
pub fn specialize(key: DepthOfFieldPipelineKey, has_dual_input_layout: bool) -> (spec: DepthOfFieldPipelineSpec)
    requires
        spec_dual_input(key.pass) ==> has_dual_input_layout,
    ensures
        spec.view_layout == (if spec_dual_input(key.pass) { ViewLayout::DualInput } else { ViewLayout::SingleInput }),
        spec.color_targets == (if spec_dual_output(key.pass) { 2usize } else { 1usize }),
        spec.hdr_format == key.hdr,
        spec.shader_defs@ == spec_shader_defs(key),
        spec.entry_point@ == spec_entry_point(key.pass),
{
    let mut shader_defs: Vec<ShaderDef> = Vec::new();
    let (view_layout, color_targets) = match key.pass {
        DofPass::GaussianHorizontal | DofPass::GaussianVertical => (ViewLayout::SingleInput, 1usize),
        DofPass::BokehPass0 => (ViewLayout::SingleInput, 2usize),
        DofPass::BokehPass1 => {
            shader_defs.push(ShaderDef::DualInput);
            (ViewLayout::DualInput, 1usize)
        },
    };
    if key.multisample {
        shader_defs.push(ShaderDef::Multisampled);
    }
    let entry_point = match key.pass {
        DofPass::GaussianHorizontal => "gaussian_horizontal",
        DofPass::GaussianVertical => "gaussian_vertical",
        DofPass::BokehPass0 => "bokeh_pass_0",
        DofPass::BokehPass1 => "bokeh_pass_1",
    };
    proof {
        if key.pass == DofPass::BokehPass1 {
            if key.multisample {
                assert(shader_defs@ =~= seq![ShaderDef::DualInput, ShaderDef::Multisampled]);
            } else {
                assert(shader_defs@ =~= seq![ShaderDef::DualInput]);
            }
        } else if key.multisample {
            assert(shader_defs@ =~= seq![ShaderDef::Multisampled]);
        } else {
            assert(shader_defs@ =~= Seq::<ShaderDef>::empty());
        }
    }
    DepthOfFieldPipelineSpec {
        view_layout,
        color_targets,
        hdr_format: key.hdr,
        shader_defs,
        entry_point,
    }
}

/// The bind group layouts of a view: whether its depth input is multisampled, and
/// whether a dual-input layout exists (bokeh only).
#[derive(Debug, Clone, Copy, PartialEq, Eq, Structural)]
pub struct ViewLayouts {
    pub multisampled_depth: bool,
    pub has_dual_input: bool,
}

/// The view bind group layouts made for a view.
pub fn prepare_depth_of_field_view_bind_group_layouts(mode: DepthOfFieldMode, msaa_on: bool) -> (l:
    ViewLayouts)
    ensures
        l.multisampled_depth == msaa_on,
        l.has_dual_input == (mode == DepthOfFieldMode::Bokeh),
{
    ViewLayouts {
        multisampled_depth: msaa_on,
        has_dual_input: match mode {
            DepthOfFieldMode::Gaussian => false,
            DepthOfFieldMode::Bokeh => true,
        },
    }
}

/// Only the bokeh passes need the auxiliary second render target.
pub fn needs_auxiliary_texture(mode: DepthOfFieldMode) -> (b: bool)
    ensures
        b == (mode == DepthOfFieldMode::Bokeh),
{
    match mode {
        DepthOfFieldMode::Bokeh => true,
        DepthOfFieldMode::Gaussian => false,
    }
}

/// Whether depth of field settings are handed to the renderer: not with multisampling
/// where depth textures cannot be sampled.
pub fn depth_of_field_enabled(msaa_on: bool, depth_textures_supported: bool) -> (b: bool)
    ensures
        b == !(msaa_on && !depth_textures_supported),
{
    !(msaa_on && !depth_textures_supported)
}

/// What is ready for the render node this frame.
#[derive(Debug, Clone, Copy, PartialEq, Eq, Structural)]
pub struct NodeResources {
    /// Whether the first pass's pipeline has been compiled.
    pub first_pipeline_ready: bool,
    /// Whether the second pass's pipeline has been compiled.
    pub second_pipeline_ready: bool,
    pub view_uniforms_bound: bool,
    pub global_bind_group_ready: bool,
    pub auxiliary_texture: bool,
    pub dual_input_layout: bool,
}

/// One pass the node draws.
#[derive(Debug, Clone, Copy, PartialEq, Eq, Structural)]
pub struct PassDraw {
    pub pass: DofPass,
    pub view_layout: ViewLayout,
    pub color_attachments: usize,
}

/// The node in the render graph for depth of field.
#[derive(Debug, Clone, Copy, Default)]
pub struct DepthOfFieldNode;

/// Whether the node stops at a pass: a missing pipeline, view uniforms or global bind
/// group ends the run there.
pub open spec fn spec_stops_at(r: NodeResources, k: int) -> bool {
    !(if k == 0 { r.first_pipeline_ready } else { r.second_pipeline_ready }) || !r.view_uniforms_bound || !r.global_bind_group_ready
}

/// Whether the node draws a pass it reaches: one that reads or writes the auxiliary
/// target is skipped while that target (or the dual-input layout it reads through) is
/// missing.
pub open spec fn spec_draws(pass: DofPass, r: NodeResources) -> bool {
    &&& spec_dual_input(pass) ==> (r.auxiliary_texture && r.dual_input_layout)
    &&& spec_dual_output(pass) ==> r.auxiliary_texture
}

/// The draw of a pass.
pub open spec fn spec_pass_draw(pass: DofPass) -> PassDraw {
    PassDraw {
        pass,
        view_layout: if spec_dual_input(pass) { ViewLayout::DualInput } else { ViewLayout::SingleInput },
        color_attachments: if spec_dual_output(pass) { 2 } else { 1 },
    }
}

/// The draws of the passes from the `k`-th on.
pub open spec fn spec_node_draws(passes: Seq<DofPass>, r: NodeResources, k: int) -> Seq<PassDraw>
    decreases passes.len() - k,
{
    if k < 0 || k >= passes.len() || k >= 2 || spec_stops_at(r, k) {
        Seq::empty()
    } else if spec_draws(passes[k], r) {
        seq![spec_pass_draw(passes[k])] + spec_node_draws(passes, r, k + 1)
    } else {
        spec_node_draws(passes, r, k + 1)
    }
}

/// How many passes the node reaches before it stops: each one it reaches takes a
/// fresh post-process write of the view target, drawn or not.
pub open spec fn spec_passes_reached(r: NodeResources) -> nat {
    if spec_stops_at(r, 0) {
        0
    } else if spec_stops_at(r, 1) {
        1
    } else {
        2
    }
}

/// What the node does in a frame.
#[derive(Debug, Clone)]
pub struct NodeRun {
    pub draws: Vec<PassDraw>,
    pub post_process_writes: usize,
}

impl DepthOfFieldNode {
    /// Plans the passes the node draws for a view in `mode`, given what is ready.
    pub fn run(&self, mode: DepthOfFieldMode, r: NodeResources) -> (out: NodeRun)
        ensures
            out.draws@ == spec_node_draws(seq![spec_mode_passes(mode).0, spec_mode_passes(mode).1], r, 0),
            out.post_process_writes == spec_passes_reached(r),
    {
        let infos = pipeline_render_info(mode);
        let ghost passes = seq![spec_mode_passes(mode).0, spec_mode_passes(mode).1];
        let mut draws: Vec<PassDraw> = Vec::new();
        let mut writes: usize = 0;
        let mut k: usize = 0;
        while k < 2
            invariant
                k <= 2,
                writes == k,
                spec_render_info_ok(infos[0], passes[0]),
                spec_render_info_ok(infos[1], passes[1]),
                passes == seq![spec_mode_passes(mode).0, spec_mode_passes(mode).1],
                forall|j: int| 0 <= j < k ==> !spec_stops_at(r, j),
                draws@ + spec_node_draws(passes, r, k as int) == spec_node_draws(passes, r, 0),
            decreases 2 - k,
        {
            let info = infos[k];
            let ready = if k == 0 {
                r.first_pipeline_ready
            } else {
                r.second_pipeline_ready
            };
            if !ready || !r.view_uniforms_bound || !r.global_bind_group_ready {
                assert(spec_node_draws(passes, r, k as int) =~= Seq::<PassDraw>::empty());
                assert(draws@ =~= draws@ + Seq::<PassDraw>::empty());
                return NodeRun { draws, post_process_writes: writes };
            }
            writes = writes + 1;
            let ghost before = draws@;
            if info.is_dual_input && !(r.auxiliary_texture && r.dual_input_layout) {
            } else if info.is_dual_output && !r.auxiliary_texture {
            } else {
                let view_layout = if info.is_dual_input {
                    ViewLayout::DualInput
                } else {
                    ViewLayout::SingleInput
                };
                let color_attachments: usize = if info.is_dual_output {
                    2
                } else {
                    1
                };
                draws.push(PassDraw { pass: info.pass, view_layout, color_attachments });
                assert(draws@ =~= before + seq![spec_pass_draw(passes[k as int])]);
            }
            k = k + 1;
        }
        assert(spec_node_draws(passes, r, 2) =~= Seq::<PassDraw>::empty());
        assert(draws@ =~= draws@ + Seq::<PassDraw>::empty());
        NodeRun { draws, post_process_writes: writes }
    }
}

/// In bokeh mode with everything ready, both passes are drawn, the first writing two
/// targets and the second reading two inputs.
pub proof fn lemma_bokeh_draws_both(r: NodeResources)
    requires
        r.first_pipeline_ready,
        r.second_pipeline_ready,
        r.view_uniforms_bound,
        r.global_bind_group_ready,
        r.auxiliary_texture,
        r.dual_input_layout,
    ensures
        spec_node_draws(seq![DofPass::BokehPass0, DofPass::BokehPass1], r, 0) == seq![
            PassDraw { pass: DofPass::BokehPass0, view_layout: ViewLayout::SingleInput, color_attachments: 2 },
            PassDraw { pass: DofPass::BokehPass1, view_layout: ViewLayout::DualInput, color_attachments: 1 },
        ],
{
    let passes = seq![DofPass::BokehPass0, DofPass::BokehPass1];
    reveal_with_fuel(spec_node_draws, 3);
    assert(spec_node_draws(passes, r, 2) =~= Seq::<PassDraw>::empty());
    assert(spec_node_draws(passes, r, 0) =~= seq![spec_pass_draw(passes[0]), spec_pass_draw(passes[1])]);
}

/// Gaussian passes need nothing of the auxiliary target: with pipelines, uniforms and
/// the global bind group ready, both are drawn with one input and one output.
pub proof fn lemma_gaussian_ignores_auxiliary(r: NodeResources)
    requires
        r.first_pipeline_ready,
        r.second_pipeline_ready,
        r.view_uniforms_bound,
        r.global_bind_group_ready,
    ensures
        spec_node_draws(seq![DofPass::GaussianHorizontal, DofPass::GaussianVertical], r, 0) == seq![
            PassDraw { pass: DofPass::GaussianHorizontal, view_layout: ViewLayout::SingleInput, color_attachments: 1 },
            PassDraw { pass: DofPass::GaussianVertical, view_layout: ViewLayout::SingleInput, color_attachments: 1 },
        ],
{
    let passes = seq![DofPass::GaussianHorizontal, DofPass::GaussianVertical];
    reveal_with_fuel(spec_node_draws, 3);
    assert(spec_node_draws(passes, r, 2) =~= Seq::<PassDraw>::empty());
    assert(spec_node_draws(passes, r, 0) =~= seq![spec_pass_draw(passes[0]), spec_pass_draw(passes[1])]);
}

/// Every pipeline the node can draw is one that `specialize` accepts for the view: the
/// second bokeh pass is only specialised where the view has its dual-input layout.
pub proof fn lemma_specialize_accepts_mode_keys(mode: DepthOfFieldMode, msaa_on: bool, hdr: bool)
    ensures
        ({
            let layouts = ViewLayouts {
                multisampled_depth: msaa_on,
                has_dual_input: mode == DepthOfFieldMode::Bokeh,
            };
            &&& spec_dual_input(spec_mode_passes(mode).0) ==> layouts.has_dual_input
            &&& spec_dual_input(spec_mode_passes(mode).1) ==> layouts.has_dual_input
        }),
{
}

} // verus!
