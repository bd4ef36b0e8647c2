use vstd::prelude::*;
use crate::matrix::{spec_scaling4, Mat4};
use crate::mesh::Mesh;
use crate::render::{
    count_draws, lemma_count_draws_concat, spec_light_color, spec_light_position,
    spec_object_color, RenderCommand, ShaderLocations,
};
use crate::bits::Vec3;
use crate::vertex::{
    pack_vertices, vertices_le_bytes, NORMAL_COMPONENTS, NORMAL_OFFSET, POSITION_COMPONENTS,
    POSITION_OFFSET, TEXCOORD_COMPONENTS, TEXCOORD_OFFSET, VERTEX_STRIDE,
};

verus! {

/// The scene: the loaded meshes, one GPU vertex buffer handle per mesh
/// (a parallel array, same length), the shared vertex-array handle, the
/// linked shader program, and the camera matrices. Handles are the
/// driver's names for GPU objects; the library never dereferences them.
#[derive(Clone, Debug)]
pub struct Scene {
    pub meshes: Vec<Mesh>,
    pub buffers: Vec<u32>,
    pub program: u32,
    pub vertex_array: u32,
    pub view: Mat4,
    pub projection: Mat4,
}

/// The two commands that open every frame: activate the program, bind
/// the shared vertex array.
pub open spec fn header_cmds(s: Scene) -> Seq<RenderCommand> {
    seq![
        RenderCommand::UseProgram { program: s.program },
        RenderCommand::BindVertexArray { vertex_array: s.vertex_array },
    ]
}

/// The attribute description for one vertex field, or nothing when the
/// shader does not have the attribute.
pub open spec fn opt_attribute(loc: Option<u32>, components: u32, offset: u32) -> Seq<
    RenderCommand,
> {
    match loc {
        Some(l) => seq![
            RenderCommand::DescribeAttribute {
                location: l,
                components: components,
                stride: VERTEX_STRIDE,
                offset: offset,
            },
        ],
        None => Seq::empty(),
    }
}

/// A 4-by-4 uniform upload, or nothing when the name is absent.
pub open spec fn opt_mat4(loc: Option<u32>, m: Mat4) -> Seq<RenderCommand> {
    match loc {
        Some(l) => seq![RenderCommand::UploadMat4 { location: l, matrix: m }],
        None => Seq::empty(),
    }
}

/// A three-component uniform upload, or nothing when the name is absent.
pub open spec fn opt_vec3(loc: Option<u32>, v: Vec3) -> Seq<RenderCommand> {
    match loc {
        Some(l) => seq![RenderCommand::UploadVec3 { location: l, value: v }],
        None => Seq::empty(),
    }
}

/// A scalar uniform upload, or nothing when the name is absent.
pub open spec fn opt_scalar(loc: Option<u32>, v: u32) -> Seq<RenderCommand> {
    match loc {
        Some(l) => seq![RenderCommand::UploadScalar { location: l, value: v }],
        None => Seq::empty(),
    }
}

/// The attribute descriptions of the three vertex fields, each present
/// exactly when the shader has the attribute, each describing its field
/// at the packed layout's offset and component count.
pub open spec fn attribute_cmds(locs: ShaderLocations) -> Seq<RenderCommand> {
    opt_attribute(locs.position, POSITION_COMPONENTS, POSITION_OFFSET) + opt_attribute(
        locs.normal,
        NORMAL_COMPONENTS,
        NORMAL_OFFSET,
    ) + opt_attribute(locs.tex_coord, TEXCOORD_COMPONENTS, TEXCOORD_OFFSET)
}

/// The frame-wide uniform uploads: camera matrices, the animation time,
/// and the three fixed lighting values, each present exactly when the
/// shader has the name.
pub open spec fn global_uniform_cmds(
    view: Mat4,
    projection: Mat4,
    locs: ShaderLocations,
    time_bits: u32,
) -> Seq<RenderCommand> {
    opt_mat4(locs.view, view) + opt_mat4(locs.projection, projection) + opt_scalar(
        locs.time,
        time_bits,
    ) + opt_vec3(locs.light_pos, spec_light_position()) + opt_vec3(
        locs.light_color,
        spec_light_color(),
    ) + opt_vec3(locs.object_color, spec_object_color())
}

/// The commands for one mesh: bind its buffer, upload its model matrix
/// and normal matrix where the shader has them (both carried as the
/// decomposed transform, with the scale already expanded to the scaling
/// matrix), and draw its whole vertex list as a triangle list from
/// vertex zero.
pub open spec fn mesh_cmds(m: Mesh, buffer: u32, locs: ShaderLocations) -> Seq<RenderCommand> {
    seq![RenderCommand::BindBuffer { buffer }] + (match locs.model {
        Some(l) => seq![
            RenderCommand::UploadModelMatrix {
                location: l,
                translate: m.translate,
                rotate: m.rotate,
                scale_diag: spec_scaling4(m.scale),
            },
        ],
        None => Seq::empty(),
    }) + (match locs.normal_matrix {
        Some(l) => seq![
            RenderCommand::UploadNormalMatrix {
                location: l,
                translate: m.translate,
                rotate: m.rotate,
                scale_diag: spec_scaling4(m.scale),
            },
        ],
        None => Seq::empty(),
    }) + seq![RenderCommand::DrawTriangles { first: 0, count: m.vertices.len() }]
}

/// The per-mesh commands of all meshes, in insertion order.
pub open spec fn meshes_cmds(meshes: Seq<Mesh>, buffers: Seq<u32>, locs: ShaderLocations) -> Seq<
    RenderCommand,
>
    decreases meshes.len(),
{
    if meshes.len() == 0 {
        Seq::empty()
    } else {
        meshes_cmds(meshes.drop_last(), buffers.drop_last(), locs) + mesh_cmds(
            meshes.last(),
            buffers[meshes.len() - 1],
            locs,
        )
    }
}

/// The whole frame: header, attribute descriptions, frame-wide uniforms,
/// then every mesh in insertion order.
pub open spec fn spec_draw_commands(s: Scene, locs: ShaderLocations, time_bits: u32) -> Seq<
    RenderCommand,
> {
    header_cmds(s) + attribute_cmds(locs) + global_uniform_cmds(s.view, s.projection, locs, time_bits)
        + meshes_cmds(s.meshes@, s.buffers@, locs)
}

impl Scene {
    /// The scene's structural invariant: one buffer per mesh, in
    /// matching order.
    pub open spec fn wf(self) -> bool {
        self.buffers@.len() == self.meshes@.len()
    }

    /// An empty scene over an already linked program and an allocated
    /// vertex array, with the given camera matrices.
    pub fn new(program: u32, vertex_array: u32, view: Mat4, projection: Mat4) -> (s: Scene)
        ensures
            s.meshes@ == Seq::<Mesh>::empty(),
            s.buffers@ == Seq::<u32>::empty(),
            s.program == program,
            s.vertex_array == vertex_array,
            s.view == view,
            s.projection == projection,
            s.wf(),
    {
        Scene {
            meshes: Vec::new(),
            buffers: Vec::new(),
            program,
            vertex_array,
            view,
            projection,
        }
    }

    /// How many meshes the scene holds.
    pub fn mesh_count(&self) -> (n: usize)
        ensures
            n == self.meshes@.len(),
    {
        self.meshes.len()
    }

    /// How many GPU buffers the scene holds.
    pub fn buffer_count(&self) -> (n: usize)
        ensures
            n == self.buffers@.len(),
    {
        self.buffers.len()
    }

    /// Appends one mesh and its GPU buffer — loading never removes — and
    /// returns the upload commands: bind the new buffer and fill it with
    /// the mesh's packed vertex bytes. Keeps the one-buffer-per-mesh
    /// invariant.
    pub fn add_mesh(&mut self, mesh: Mesh, buffer: u32) -> (cmds: Vec<RenderCommand>)
        ensures
            final(self).meshes@ == old(self).meshes@.push(mesh),
            final(self).buffers@ == old(self).buffers@.push(buffer),
            final(self).program == old(self).program,
            final(self).vertex_array == old(self).vertex_array,
            final(self).view == old(self).view,
            final(self).projection == old(self).projection,
            old(self).wf() ==> final(self).wf(),
            cmds@.len() == 2,
            cmds@[0] == (RenderCommand::BindBuffer { buffer }),
            (cmds@[1] matches RenderCommand::UploadBuffer { buffer: b, bytes } && b == buffer
                && bytes@ == vertices_le_bytes(mesh.vertices@)),
    {
        let bytes = pack_vertices(&mesh.vertices);
        let mut cmds: Vec<RenderCommand> = Vec::new();
        cmds.push(RenderCommand::BindBuffer { buffer });
        cmds.push(RenderCommand::UploadBuffer { buffer, bytes });
        self.meshes.push(mesh);
        self.buffers.push(buffer);
        cmds
    }

    /// Computes the complete, ordered command sequence of one frame of
    /// the draw protocol. Absent shader names suppress exactly their own
    /// bind or upload; every mesh is drawn regardless, in insertion
    /// order, over its whole vertex list.
    pub fn draw_commands(&self, locs: &ShaderLocations, time_bits: u32) -> (cmds: Vec<RenderCommand>)
        requires
            self.wf(),
        ensures
            cmds@ == spec_draw_commands(*self, *locs, time_bits),
    {
        let mut cmds: Vec<RenderCommand> = Vec::new();
        cmds.push(RenderCommand::UseProgram { program: self.program });
        cmds.push(RenderCommand::BindVertexArray { vertex_array: self.vertex_array });
        proof {
            assert(cmds@ =~= header_cmds(*self));
        }
        push_attribute_cmds(&mut cmds, locs);
        push_global_uniform_cmds(&mut cmds, self.view, self.projection, locs, time_bits);
        let ghost prefix = header_cmds(*self) + attribute_cmds(*locs) + global_uniform_cmds(
            self.view,
            self.projection,
            *locs,
            time_bits,
        );
        proof {
            assert(cmds@ =~= prefix);
        }
        let mut i: usize = 0;
        while i < self.meshes.len()
            invariant
                i <= self.meshes@.len(),
                self.wf(),
                prefix == header_cmds(*self) + attribute_cmds(*locs) + global_uniform_cmds(
                    self.view,
                    self.projection,
                    *locs,
                    time_bits,
                ),
                cmds@ == prefix + meshes_cmds(
                    self.meshes@.take(i as int),
                    self.buffers@.take(i as int),
                    *locs,
                ),
            decreases self.meshes@.len() - i,
        {
            let buffer = self.buffers[i];
            push_mesh_cmds(&mut cmds, &self.meshes[i], buffer, locs);
            i = i + 1;
            proof {
                assert(self.meshes@.take(i as int).drop_last() =~= self.meshes@.take(i - 1));
                assert(self.buffers@.take(i as int).drop_last() =~= self.buffers@.take(i - 1));
                assert(self.meshes@.take(i as int).last() == self.meshes@[i - 1]);
                assert(self.buffers@.take(i as int)[self.meshes@.take(i as int).len() - 1]
                    == self.buffers@[i - 1]);
                assert(cmds@ =~= prefix + meshes_cmds(
                    self.meshes@.take(i as int),
                    self.buffers@.take(i as int),
                    *locs,
                ));
            }
        }
        proof {
            assert(self.meshes@.take(self.meshes@.len() as int) =~= self.meshes@);
            assert(self.buffers@.take(self.buffers@.len() as int) =~= self.buffers@);
        }
        cmds
    }
}

/// Appends the attribute descriptions of the three vertex fields.
fn push_attribute_cmds(cmds: &mut Vec<RenderCommand>, locs: &ShaderLocations)
    ensures
        final(cmds)@ == old(cmds)@ + attribute_cmds(*locs),
{
    let ghost start = cmds@;
    if let Some(l) = locs.position {
        cmds.push(
            RenderCommand::DescribeAttribute {
                location: l,
                components: POSITION_COMPONENTS,
                stride: VERTEX_STRIDE,
                offset: POSITION_OFFSET,
            },
        );
    }
    if let Some(l) = locs.normal {
        cmds.push(
            RenderCommand::DescribeAttribute {
                location: l,
                components: NORMAL_COMPONENTS,
                stride: VERTEX_STRIDE,
                offset: NORMAL_OFFSET,
            },
        );
    }
    if let Some(l) = locs.tex_coord {
        cmds.push(
            RenderCommand::DescribeAttribute {
                location: l,
                components: TEXCOORD_COMPONENTS,
                stride: VERTEX_STRIDE,
                offset: TEXCOORD_OFFSET,
            },
        );
    }
    proof {
        assert(cmds@ =~= start + attribute_cmds(*locs));
    }
}

/// Appends the frame-wide uniform uploads.
fn push_global_uniform_cmds(
    cmds: &mut Vec<RenderCommand>,
    view: Mat4,
    projection: Mat4,
    locs: &ShaderLocations,
    time_bits: u32,
)
    ensures
        final(cmds)@ == old(cmds)@ + global_uniform_cmds(view, projection, *locs, time_bits),
{
    let ghost start = cmds@;
    if let Some(l) = locs.view {
        cmds.push(RenderCommand::UploadMat4 { location: l, matrix: view });
    }
    if let Some(l) = locs.projection {
        cmds.push(RenderCommand::UploadMat4 { location: l, matrix: projection });
    }
    if let Some(l) = locs.time {
        cmds.push(RenderCommand::UploadScalar { location: l, value: time_bits });
    }
    if let Some(l) = locs.light_pos {
        cmds.push(RenderCommand::UploadVec3 { location: l, value: crate::render::light_position() });
    }
    if let Some(l) = locs.light_color {
        cmds.push(RenderCommand::UploadVec3 { location: l, value: crate::render::light_color() });
    }
    if let Some(l) = locs.object_color {
        cmds.push(RenderCommand::UploadVec3 { location: l, value: crate::render::object_color() });
    }
    proof {
        assert(cmds@ =~= start + global_uniform_cmds(view, projection, *locs, time_bits));
    }
}

/// Appends the commands of one mesh.
fn push_mesh_cmds(cmds: &mut Vec<RenderCommand>, m: &Mesh, buffer: u32, locs: &ShaderLocations)
    ensures
        final(cmds)@ == old(cmds)@ + mesh_cmds(*m, buffer, *locs),
{
    let ghost start = cmds@;
    cmds.push(RenderCommand::BindBuffer { buffer });
    if let Some(l) = locs.model {
        cmds.push(
            RenderCommand::UploadModelMatrix {
                location: l,
                translate: m.translate,
                rotate: m.rotate,
                scale_diag: Mat4::scaling(m.scale),
            },
        );
    }
    if let Some(l) = locs.normal_matrix {
        cmds.push(
            RenderCommand::UploadNormalMatrix {
                location: l,
                translate: m.translate,
                rotate: m.rotate,
                scale_diag: Mat4::scaling(m.scale),
            },
        );
    }
    cmds.push(RenderCommand::DrawTriangles { first: 0, count: m.vertices.len() });
    proof {
        assert(cmds@ =~= start + mesh_cmds(*m, buffer, *locs));
    }
}

/// No command of `cmds` is a draw call.
pub open spec fn no_draw(cmds: Seq<RenderCommand>) -> bool {
    forall|i: int| 0 <= i < cmds.len() ==> !(cmds[i] is DrawTriangles)
}

/// A sequence without draw calls counts zero draws.
pub proof fn lemma_no_draw_count(cmds: Seq<RenderCommand>)
    requires
        no_draw(cmds),
    ensures
        count_draws(cmds) == 0,
    decreases cmds.len(),
{
    if cmds.len() > 0 {
        assert(!(cmds[cmds.len() - 1] is DrawTriangles));
        assert(no_draw(cmds.drop_last()));
        lemma_no_draw_count(cmds.drop_last());
    }
}

/// Concatenation keeps the absence of draw calls.
pub proof fn lemma_no_draw_concat(a: Seq<RenderCommand>, b: Seq<RenderCommand>)
    requires
        no_draw(a),
        no_draw(b),
    ensures
        no_draw(a + b),
{
    assert forall|i: int| 0 <= i < (a + b).len() implies !((a + b)[i] is DrawTriangles) by {
        if i < a.len() {
            assert((a + b)[i] == a[i]);
        } else {
            assert((a + b)[i] == b[i - a.len()]);
        }
    }
}

/// One mesh's commands issue exactly one draw call.
pub proof fn lemma_mesh_cmds_one_draw(m: Mesh, buffer: u32, locs: ShaderLocations)
    ensures
        count_draws(mesh_cmds(m, buffer, locs)) == 1,
{
    let draw = seq![RenderCommand::DrawTriangles { first: 0, count: m.vertices.len() }];
    let setup = mesh_cmds(m, buffer, locs).drop_last();
    assert(mesh_cmds(m, buffer, locs) =~= setup + draw);
    lemma_setup_of_mesh_cmds_no_draw(m, buffer, locs);
    lemma_no_draw_count(setup);
    lemma_count_draws_concat(setup, draw);
    assert(draw.drop_last() =~= Seq::<RenderCommand>::empty());
    assert(count_draws(draw.drop_last()) == 0);
    assert(draw.last() is DrawTriangles);
    assert(count_draws(draw) == 1);
}

/// The per-mesh commands issue exactly one draw call per mesh.
pub proof fn lemma_meshes_cmds_draws(meshes: Seq<Mesh>, buffers: Seq<u32>, locs: ShaderLocations)
    ensures
        count_draws(meshes_cmds(meshes, buffers, locs)) == meshes.len(),
    decreases meshes.len(),
{
    if meshes.len() > 0 {
        lemma_meshes_cmds_draws(meshes.drop_last(), buffers.drop_last(), locs);
        lemma_count_draws_concat(
            meshes_cmds(meshes.drop_last(), buffers.drop_last(), locs),
            mesh_cmds(meshes.last(), buffers[meshes.len() - 1], locs),
        );
        lemma_mesh_cmds_one_draw(meshes.last(), buffers[meshes.len() - 1], locs);
    }
}

/// The commands before the per-mesh section — header, attribute
/// descriptions, frame-wide uniforms — contain no draw call, whatever
/// locations the shader reported.
pub proof fn lemma_setup_no_draw(s: Scene, locs: ShaderLocations, time_bits: u32)
    ensures
        no_draw(
            header_cmds(s) + attribute_cmds(locs) + global_uniform_cmds(
                s.view,
                s.projection,
                locs,
                time_bits,
            ),
        ),
{
    let header = header_cmds(s);
    let attr = attribute_cmds(locs);
    let globals = global_uniform_cmds(s.view, s.projection, locs, time_bits);
    assert(no_draw(header));
    assert(no_draw(opt_attribute(locs.position, POSITION_COMPONENTS, POSITION_OFFSET)));
    assert(no_draw(opt_attribute(locs.normal, NORMAL_COMPONENTS, NORMAL_OFFSET)));
    assert(no_draw(opt_attribute(locs.tex_coord, TEXCOORD_COMPONENTS, TEXCOORD_OFFSET)));
    lemma_no_draw_concat(
        opt_attribute(locs.position, POSITION_COMPONENTS, POSITION_OFFSET),
        opt_attribute(locs.normal, NORMAL_COMPONENTS, NORMAL_OFFSET),
    );
    lemma_no_draw_concat(
        opt_attribute(locs.position, POSITION_COMPONENTS, POSITION_OFFSET) + opt_attribute(
            locs.normal,
            NORMAL_COMPONENTS,
            NORMAL_OFFSET,
        ),
        opt_attribute(locs.tex_coord, TEXCOORD_COMPONENTS, TEXCOORD_OFFSET),
    );
    assert(no_draw(attr));
    assert(no_draw(opt_mat4(locs.view, s.view)));
    assert(no_draw(opt_mat4(locs.projection, s.projection)));
    assert(no_draw(opt_scalar(locs.time, time_bits)));
    assert(no_draw(opt_vec3(locs.light_pos, spec_light_position())));
    assert(no_draw(opt_vec3(locs.light_color, spec_light_color())));
    assert(no_draw(opt_vec3(locs.object_color, spec_object_color())));
    lemma_no_draw_concat(opt_mat4(locs.view, s.view), opt_mat4(locs.projection, s.projection));
    lemma_no_draw_concat(
        opt_mat4(locs.view, s.view) + opt_mat4(locs.projection, s.projection),
        opt_scalar(locs.time, time_bits),
    );
    lemma_no_draw_concat(
        opt_mat4(locs.view, s.view) + opt_mat4(locs.projection, s.projection) + opt_scalar(
            locs.time,
            time_bits,
        ),
        opt_vec3(locs.light_pos, spec_light_position()),
    );
    lemma_no_draw_concat(
        opt_mat4(locs.view, s.view) + opt_mat4(locs.projection, s.projection) + opt_scalar(
            locs.time,
            time_bits,
        ) + opt_vec3(locs.light_pos, spec_light_position()),
        opt_vec3(locs.light_color, spec_light_color()),
    );
    lemma_no_draw_concat(
        opt_mat4(locs.view, s.view) + opt_mat4(locs.projection, s.projection) + opt_scalar(
            locs.time,
            time_bits,
        ) + opt_vec3(locs.light_pos, spec_light_position()) + opt_vec3(
            locs.light_color,
            spec_light_color(),
        ),
        opt_vec3(locs.object_color, spec_object_color()),
    );
    assert(no_draw(globals));
    lemma_no_draw_concat(header, attr);
    lemma_no_draw_concat(header + attr, globals);
}

/// Every frame issues exactly one draw call per mesh, whatever locations
/// the shader reported: names absent from the active shader suppress
/// only their own binds and uploads, never a draw. In particular a frame
/// in which no name at all was found still completes its draw calls.
pub proof fn lemma_frame_draws_every_mesh(s: Scene, locs: ShaderLocations, time_bits: u32)
    ensures
        count_draws(spec_draw_commands(s, locs, time_bits)) == s.meshes@.len(),
{
    let header = header_cmds(s);
    let attr = attribute_cmds(locs);
    let globals = global_uniform_cmds(s.view, s.projection, locs, time_bits);
    let per_mesh = meshes_cmds(s.meshes@, s.buffers@, locs);
    lemma_setup_no_draw(s, locs, time_bits);
    lemma_no_draw_count(header + attr + globals);
    lemma_count_draws_concat(header + attr + globals, per_mesh);
    lemma_meshes_cmds_draws(s.meshes@, s.buffers@, locs);
    assert(spec_draw_commands(s, locs, time_bits) == header + attr + globals + per_mesh);
}

/// The vertex counts of a command sequence's draw calls, in order.
pub open spec fn draw_counts(cmds: Seq<RenderCommand>) -> Seq<usize>
    decreases cmds.len(),
{
    if cmds.len() == 0 {
        Seq::empty()
    } else {
        draw_counts(cmds.drop_last()) + (match cmds.last() {
            RenderCommand::DrawTriangles { count, .. } => seq![count],
            _ => Seq::empty(),
        })
    }
}

/// Draw counts concatenate over concatenation.
pub proof fn lemma_draw_counts_concat(a: Seq<RenderCommand>, b: Seq<RenderCommand>)
    ensures
        draw_counts(a + b) == draw_counts(a) + draw_counts(b),
    decreases b.len(),
{
    if b.len() == 0 {
        assert(a + b =~= a);
        assert(draw_counts(a) + draw_counts(b) =~= draw_counts(a));
    } else {
        lemma_draw_counts_concat(a, b.drop_last());
        assert((a + b).drop_last() =~= a + b.drop_last());
        assert(draw_counts(a + b) =~= draw_counts(a) + draw_counts(b));
    }
}

/// A sequence without draw calls has no draw counts.
pub proof fn lemma_no_draw_counts(cmds: Seq<RenderCommand>)
    requires
        no_draw(cmds),
    ensures
        draw_counts(cmds) == Seq::<usize>::empty(),
    decreases cmds.len(),
{
    if cmds.len() > 0 {
        assert(!(cmds[cmds.len() - 1] is DrawTriangles));
        assert(no_draw(cmds.drop_last()));
        lemma_no_draw_counts(cmds.drop_last());
        assert(draw_counts(cmds) =~= Seq::<usize>::empty());
    }
}

/// One mesh's commands draw exactly its vertex count.
pub proof fn lemma_mesh_cmds_draw_count(m: Mesh, buffer: u32, locs: ShaderLocations)
    ensures
        draw_counts(mesh_cmds(m, buffer, locs)) == seq![m.vertices.len()],
{
    let draw = seq![RenderCommand::DrawTriangles { first: 0, count: m.vertices.len() }];
    let setup = mesh_cmds(m, buffer, locs).drop_last();
    assert(mesh_cmds(m, buffer, locs) =~= setup + draw);
    lemma_setup_of_mesh_cmds_no_draw(m, buffer, locs);
    lemma_no_draw_counts(setup);
    lemma_draw_counts_concat(setup, draw);
    assert(draw.drop_last() =~= Seq::<RenderCommand>::empty());
    assert(draw_counts(draw) =~= seq![m.vertices.len()]);
}

/// The part of one mesh's commands before its draw call has no draw.
pub proof fn lemma_setup_of_mesh_cmds_no_draw(m: Mesh, buffer: u32, locs: ShaderLocations)
    ensures
        no_draw(mesh_cmds(m, buffer, locs).drop_last()),
{
    let bind = seq![RenderCommand::BindBuffer { buffer }];
    let model = match locs.model {
        Some(l) => seq![
            RenderCommand::UploadModelMatrix {
                location: l,
                translate: m.translate,
                rotate: m.rotate,
                scale_diag: spec_scaling4(m.scale),
            },
        ],
        None => Seq::empty(),
    };
    let normal = match locs.normal_matrix {
        Some(l) => seq![
            RenderCommand::UploadNormalMatrix {
                location: l,
                translate: m.translate,
                rotate: m.rotate,
                scale_diag: spec_scaling4(m.scale),
            },
        ],
        None => Seq::empty(),
    };
    assert(no_draw(bind));
    assert(no_draw(model));
    assert(no_draw(normal));
    lemma_no_draw_concat(bind, model);
    lemma_no_draw_concat(bind + model, normal);
    assert(mesh_cmds(m, buffer, locs).drop_last() =~= bind + model + normal);
}

/// The per-mesh commands draw each mesh's vertex count, in mesh order.
pub proof fn lemma_meshes_cmds_draw_counts(
    meshes: Seq<Mesh>,
    buffers: Seq<u32>,
    locs: ShaderLocations,
)
    ensures
        draw_counts(meshes_cmds(meshes, buffers, locs)) == meshes.map_values(
            |m: Mesh| m.vertices.len(),
        ),
    decreases meshes.len(),
{
    if meshes.len() == 0 {
        assert(meshes.map_values(|m: Mesh| m.vertices.len()) =~= Seq::<usize>::empty());
    } else {
        lemma_meshes_cmds_draw_counts(meshes.drop_last(), buffers.drop_last(), locs);
        lemma_draw_counts_concat(
            meshes_cmds(meshes.drop_last(), buffers.drop_last(), locs),
            mesh_cmds(meshes.last(), buffers[meshes.len() - 1], locs),
        );
        lemma_mesh_cmds_draw_count(meshes.last(), buffers[meshes.len() - 1], locs);
        assert(meshes.map_values(|m: Mesh| m.vertices.len()) =~= meshes.drop_last().map_values(
            |m: Mesh| m.vertices.len(),
        ) + seq![meshes.last().vertices.len()]);
    }
}

/// Every frame draws, in insertion order, exactly the whole vertex list
/// of each mesh: the sequence of draw-call vertex counts equals the
/// sequence of the meshes' vertex counts.
pub proof fn lemma_frame_draw_counts(s: Scene, locs: ShaderLocations, time_bits: u32)
    ensures
        draw_counts(spec_draw_commands(s, locs, time_bits)) == s.meshes@.map_values(
            |m: Mesh| m.vertices.len(),
        ),
{
    let header = header_cmds(s);
    let attr = attribute_cmds(locs);
    let globals = global_uniform_cmds(s.view, s.projection, locs, time_bits);
    let per_mesh = meshes_cmds(s.meshes@, s.buffers@, locs);
    lemma_setup_no_draw(s, locs, time_bits);
    lemma_no_draw_counts(header + attr + globals);
    lemma_draw_counts_concat(header + attr + globals, per_mesh);
    lemma_meshes_cmds_draw_counts(s.meshes@, s.buffers@, locs);
    assert(spec_draw_commands(s, locs, time_bits) == header + attr + globals + per_mesh);
}

} // verus!
