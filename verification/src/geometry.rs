//! Vertex buffers and vertex arrays.
//!
//! A [`Vbo`] owns one GPU buffer in one of two fixed layouts: the
//! static mesh layout of 8 floats per vertex (3 position, 2 texture,
//! 3 normal), uploaded once and never updated, or the dynamic quad
//! layout of 4 floats per vertex (2 position, 2 texture) with room
//! for exactly 6 vertices, whose whole contents are replaced on every
//! update.  A [`Vao`] binds buffers to attribute layouts, accumulates
//! their vertex counts, and issues the triangle draw over the
//! accumulated range.

use vstd::prelude::*;

use crate::gl::{Gl, GlCommand, Scalar};

verus! {

/// How many floats the dynamic quad layout holds: 6 vertices of 4.
pub const DYNAMIC_QUAD_FLOATS: u32 = 24;

/// The two vertex layouts a buffer can carry.
#[derive(Clone, Copy, Debug, PartialEq, Eq, Structural)]
pub enum VertexFormat {
    /// 8 floats per vertex: 3 position, 2 texture, 3 normal; fixed at
    /// creation.
    StaticF32_3_2_3,
    /// 4 floats per vertex: 2 position, 2 texture; 6 vertices,
    /// replaced wholesale by every update.
    DynamicF32_2_2,
}

/// A GPU vertex buffer, tagged with its layout and vertex count.  The
/// handle is owned: releasing it with [`Vbo::delete`] consumes the
/// value, so it is released at most once.
#[derive(Debug)]
pub struct Vbo {
    pub handle: u32,
    pub vertex_format: VertexFormat,
    pub vertices_count: i32,
}

impl Vbo {
    /// Creates a static buffer in the 3-2-3 layout from `vertices`,
    /// given as IEEE-754 single-precision bit patterns.  The data
    /// must hold a nonzero whole number of 8-float vertices; the
    /// buffer's vertex count is `vertices.len() / 8`.  Records the
    /// creation, the static upload of the full data, and the unbind.
    pub fn init_f32_3_2_3(gl: &mut Gl, vertices: &Vec<u32>) -> (v: Vbo)
        requires
            old(gl).next_handle < u32::MAX,
            vertices@.len() > 0,
            vertices@.len() % 8 == 0,
            vertices@.len() / 8 <= i32::MAX,
        ensures
            v.handle == old(gl).next_handle,
            v.vertex_format == VertexFormat::StaticF32_3_2_3,
            v.vertices_count == vertices@.len() / 8,
            final(gl).next_handle == old(gl).next_handle + 1,
            final(gl).max_texture_units == old(gl).max_texture_units,
            final(gl).commands@.len() == old(gl).commands@.len() + 4,
            final(gl).commands@.subrange(0, old(gl).commands@.len() as int) == old(gl).commands@,
            final(gl).commands@[old(gl).commands@.len() as int] == (GlCommand::GenBuffer {
                buffer: v.handle,
            }),
            final(gl).commands@[old(gl).commands@.len() as int + 1] == (GlCommand::BindBuffer {
                buffer: v.handle,
            }),
            (final(gl).commands@[old(gl).commands@.len() as int + 2]
                matches GlCommand::BufferDataStatic { data } && data@ == vertices@),
            final(gl).commands@[old(gl).commands@.len() as int + 3] == (GlCommand::BindBuffer {
                buffer: 0,
            }),
    {
        let ghost n0 = gl.commands@.len() as int;
        let handle = gl.fresh_handle();
        let vertices_count: i32 = (vertices.len() / 8) as i32;
        gl.emit(GlCommand::GenBuffer { buffer: handle });
        gl.emit(GlCommand::BindBuffer { buffer: handle });
        gl.emit(GlCommand::BufferDataStatic { data: clone_words(vertices) });
        gl.emit(GlCommand::BindBuffer { buffer: 0 });
        proof {
            assert(gl.commands@.subrange(0, n0) =~= old(gl).commands@);
        }
        Vbo { handle, vertex_format: VertexFormat::StaticF32_3_2_3, vertices_count }
    }

    /// Creates a dynamic buffer in the quad layout: room for exactly
    /// 6 vertices of 4 floats, contents undefined until the first
    /// [`update`](Self::update).  Records the creation, the dynamic
    /// storage reservation, and the unbind.
    pub fn init_f32_2_2(gl: &mut Gl) -> (v: Vbo)
        requires
            old(gl).next_handle < u32::MAX,
        ensures
            v.handle == old(gl).next_handle,
            v.vertex_format == VertexFormat::DynamicF32_2_2,
            v.vertices_count == 6,
            final(gl).next_handle == old(gl).next_handle + 1,
            final(gl).max_texture_units == old(gl).max_texture_units,
            final(gl).commands@ == old(gl).commands@ + seq![
                GlCommand::GenBuffer { buffer: old(gl).next_handle },
                GlCommand::BindBuffer { buffer: old(gl).next_handle },
                GlCommand::BufferDataReserveDynamic { floats: DYNAMIC_QUAD_FLOATS },
                GlCommand::BindBuffer { buffer: 0 },
            ],
    {
        let handle = gl.fresh_handle();
        gl.emit(GlCommand::GenBuffer { buffer: handle });
        gl.emit(GlCommand::BindBuffer { buffer: handle });
        gl.emit(GlCommand::BufferDataReserveDynamic { floats: DYNAMIC_QUAD_FLOATS });
        gl.emit(GlCommand::BindBuffer { buffer: 0 });
        proof {
            assert(gl.commands@ =~= old(gl).commands@ + seq![
                GlCommand::GenBuffer { buffer: old(gl).next_handle },
                GlCommand::BindBuffer { buffer: old(gl).next_handle },
                GlCommand::BufferDataReserveDynamic { floats: DYNAMIC_QUAD_FLOATS },
                GlCommand::BindBuffer { buffer: 0 },
            ]);
        }
        Vbo { handle, vertex_format: VertexFormat::DynamicF32_2_2, vertices_count: 6 }
    }

    /// Replaces the whole contents of a dynamic quad buffer.  Only a
    /// buffer in the dynamic layout may be updated, and only with
    /// exactly 24 scalars (6 vertices of 4); anything else is a
    /// caller contract violation, not a runtime error.  Records the
    /// bind, the full re-upload, and the unbind.
    pub fn update(&self, gl: &mut Gl, vertices: &Vec<Scalar>)
        requires
            self.vertex_format == VertexFormat::DynamicF32_2_2,
            vertices@.len() == DYNAMIC_QUAD_FLOATS,
        ensures
            final(gl).next_handle == old(gl).next_handle,
            final(gl).max_texture_units == old(gl).max_texture_units,
            final(gl).commands@.len() == old(gl).commands@.len() + 3,
            final(gl).commands@.subrange(0, old(gl).commands@.len() as int) == old(gl).commands@,
            is_update_commands(
                final(gl).commands@.subrange(
                    old(gl).commands@.len() as int,
                    final(gl).commands@.len() as int,
                ),
                self.handle,
                vertices@,
            ),
    {
        let ghost n0 = gl.commands@.len() as int;
        gl.emit(GlCommand::BindBuffer { buffer: self.handle });
        gl.emit(GlCommand::BufferDataDynamic { data: clone_scalars(vertices) });
        gl.emit(GlCommand::BindBuffer { buffer: 0 });
        proof {
            assert(gl.commands@.subrange(0, n0) =~= old(gl).commands@);
            assert(gl.commands@.subrange(n0, n0 + 3)[0] == gl.commands@[n0]);
            assert(gl.commands@.subrange(n0, n0 + 3)[1] == gl.commands@[n0 + 1]);
            assert(gl.commands@.subrange(n0, n0 + 3)[2] == gl.commands@[n0 + 2]);
        }
    }

    /// Releases the buffer handle.
    pub fn delete(self, gl: &mut Gl)
        ensures
            final(gl).commands@ == old(gl).commands@.push(
                GlCommand::DeleteBuffer { buffer: self.handle },
            ),
            final(gl).next_handle == old(gl).next_handle,
            final(gl).max_texture_units == old(gl).max_texture_units,
    {
        gl.emit(GlCommand::DeleteBuffer { buffer: self.handle });
    }
}

/// Are `s` exactly the three GL calls of one dynamic buffer update:
/// bind the buffer, replace its whole contents with `data`, unbind?
pub open spec fn is_update_commands(s: Seq<GlCommand>, handle: u32, data: Seq<Scalar>) -> bool {
    &&& s.len() == 3
    &&& s[0] == (GlCommand::BindBuffer { buffer: handle })
    &&& (s[1] matches GlCommand::BufferDataDynamic { data: d } && d@ == data)
    &&& s[2] == (GlCommand::BindBuffer { buffer: 0 })
}

/// The attribute setup one [`Vao::bind_vbo`] call records for a
/// buffer in the given layout: for the static 3-2-3 layout three
/// attributes over a 32-byte vertex (position at offset 0, texture
/// coordinates at 12, normal at 20), for the dynamic quad layout one
/// 4-float attribute over a 16-byte vertex.
pub open spec fn bind_vbo_commands(array: u32, buffer: u32, format: VertexFormat) -> Seq<
    GlCommand,
> {
    match format {
        VertexFormat::StaticF32_3_2_3 => seq![
            GlCommand::BindVertexArray { array },
            GlCommand::BindBuffer { buffer },
            GlCommand::VertexAttribPointer { index: 0, size: 3, stride_bytes: 32, offset_bytes: 0 },
            GlCommand::EnableVertexAttribArray { index: 0 },
            GlCommand::VertexAttribPointer {
                index: 1,
                size: 2,
                stride_bytes: 32,
                offset_bytes: 12,
            },
            GlCommand::EnableVertexAttribArray { index: 1 },
            GlCommand::VertexAttribPointer {
                index: 2,
                size: 3,
                stride_bytes: 32,
                offset_bytes: 20,
            },
            GlCommand::EnableVertexAttribArray { index: 2 },
            GlCommand::BindVertexArray { array: 0 },
        ],
        VertexFormat::DynamicF32_2_2 => seq![
            GlCommand::BindVertexArray { array },
            GlCommand::BindBuffer { buffer },
            GlCommand::VertexAttribPointer { index: 0, size: 4, stride_bytes: 16, offset_bytes: 0 },
            GlCommand::EnableVertexAttribArray { index: 0 },
            GlCommand::BindVertexArray { array: 0 },
        ],
    }
}

/// The three GL calls one triangle draw records: bind the array, draw
/// `count` vertices from 0 as triangles, unbind.
pub open spec fn draw_triangles_commands(array: u32, count: i32) -> Seq<GlCommand> {
    seq![
        GlCommand::BindVertexArray { array },
        GlCommand::DrawTriangles { first: 0, count },
        GlCommand::BindVertexArray { array: 0 },
    ]
}

/// A GPU vertex array: an attribute configuration plus the running
/// vertex count accumulated from every buffer bound to it.  The
/// handle is owned: releasing it with [`Vao::delete`] consumes the
/// value, so it is released at most once.
#[derive(Debug)]
pub struct Vao {
    pub handle: u32,
    pub vertices_count: i32,
}

impl Vao {
    /// Allocates a vertex array with a zero running vertex count.
    pub fn init(gl: &mut Gl) -> (v: Vao)
        requires
            old(gl).next_handle < u32::MAX,
        ensures
            v.handle == old(gl).next_handle,
            v.vertices_count == 0,
            final(gl).next_handle == old(gl).next_handle + 1,
            final(gl).max_texture_units == old(gl).max_texture_units,
            final(gl).commands@ == old(gl).commands@.push(
                GlCommand::GenVertexArray { array: old(gl).next_handle },
            ),
    {
        let handle = gl.fresh_handle();
        gl.emit(GlCommand::GenVertexArray { array: handle });
        Vao { handle, vertices_count: 0 }
    }

    /// Binds `vbo` to this array: configures the attribute layout the
    /// buffer's format calls for and adds the buffer's vertex count
    /// to the running total, so that several buffers can contribute
    /// to one array's draw range.
    pub fn bind_vbo(&mut self, gl: &mut Gl, vbo: &Vbo)
        requires
            old(self).vertices_count + vbo.vertices_count <= i32::MAX,
            old(self).vertices_count + vbo.vertices_count >= i32::MIN,
        ensures
            final(self).handle == old(self).handle,
            final(self).vertices_count == old(self).vertices_count + vbo.vertices_count,
            final(gl).next_handle == old(gl).next_handle,
            final(gl).max_texture_units == old(gl).max_texture_units,
            final(gl).commands@ == old(gl).commands@ + bind_vbo_commands(
                old(self).handle,
                vbo.handle,
                vbo.vertex_format,
            ),
    {
        match vbo.vertex_format {
            VertexFormat::StaticF32_3_2_3 => {
                gl.emit(GlCommand::BindVertexArray { array: self.handle });
                gl.emit(GlCommand::BindBuffer { buffer: vbo.handle });
                gl.emit(
                    GlCommand::VertexAttribPointer {
                        index: 0,
                        size: 3,
                        stride_bytes: 32,
                        offset_bytes: 0,
                    },
                );
                gl.emit(GlCommand::EnableVertexAttribArray { index: 0 });
                gl.emit(
                    GlCommand::VertexAttribPointer {
                        index: 1,
                        size: 2,
                        stride_bytes: 32,
                        offset_bytes: 12,
                    },
                );
                gl.emit(GlCommand::EnableVertexAttribArray { index: 1 });
                gl.emit(
                    GlCommand::VertexAttribPointer {
                        index: 2,
                        size: 3,
                        stride_bytes: 32,
                        offset_bytes: 20,
                    },
                );
                gl.emit(GlCommand::EnableVertexAttribArray { index: 2 });
                gl.emit(GlCommand::BindVertexArray { array: 0 });
            },
            VertexFormat::DynamicF32_2_2 => {
                gl.emit(GlCommand::BindVertexArray { array: self.handle });
                gl.emit(GlCommand::BindBuffer { buffer: vbo.handle });
                gl.emit(
                    GlCommand::VertexAttribPointer {
                        index: 0,
                        size: 4,
                        stride_bytes: 16,
                        offset_bytes: 0,
                    },
                );
                gl.emit(GlCommand::EnableVertexAttribArray { index: 0 });
                gl.emit(GlCommand::BindVertexArray { array: 0 });
            },
        }
        self.vertices_count = self.vertices_count + vbo.vertices_count;
        proof {
            assert(gl.commands@ =~= old(gl).commands@ + bind_vbo_commands(
                old(self).handle,
                vbo.handle,
                vbo.vertex_format,
            ));
        }
    }

    /// Draws the accumulated vertex range `[0, vertices_count)` as
    /// triangles.
    pub fn draw_triangles(&self, gl: &mut Gl)
        ensures
            final(gl).next_handle == old(gl).next_handle,
            final(gl).max_texture_units == old(gl).max_texture_units,
            final(gl).commands@ == old(gl).commands@ + draw_triangles_commands(
                self.handle,
                self.vertices_count,
            ),
    {
        gl.emit(GlCommand::BindVertexArray { array: self.handle });
        gl.emit(GlCommand::DrawTriangles { first: 0, count: self.vertices_count });
        gl.emit(GlCommand::BindVertexArray { array: 0 });
        proof {
            assert(gl.commands@ =~= old(gl).commands@ + draw_triangles_commands(
                self.handle,
                self.vertices_count,
            ));
        }
    }

    /// Releases the vertex array handle.  Bound buffers are owned
    /// elsewhere and stay alive.
    pub fn delete(self, gl: &mut Gl)
        ensures
            final(gl).commands@ == old(gl).commands@.push(
                GlCommand::DeleteVertexArray { array: self.handle },
            ),
            final(gl).next_handle == old(gl).next_handle,
            final(gl).max_texture_units == old(gl).max_texture_units,
    {
        gl.emit(GlCommand::DeleteVertexArray { array: self.handle });
    }
}

/// The 24 scalars of a two-triangle quad in the dynamic layout, from
/// the corner coordinates `[x0, x1] x [y0, y1]` and the texture
/// rectangle `[s0, s1] x [t0, t1]`.  Each vertex is position x, y
/// then texture s, t; the triangles are (x1 y1, x1 y0, x0 y1) and
/// (x1 y0, x0 y0, x0 y1).
pub open spec fn quad_seq(
    x0: Scalar,
    x1: Scalar,
    y0: Scalar,
    y1: Scalar,
    s0: Scalar,
    s1: Scalar,
    t0: Scalar,
    t1: Scalar,
) -> Seq<Scalar> {
    seq![
        x1, y1, s1, t1,
        x1, y0, s1, t0,
        x0, y1, s0, t1,
        x1, y0, s1, t0,
        x0, y0, s0, t0,
        x0, y1, s0, t1,
    ]
}

/// Builds the 24 scalars of a two-triangle quad, ready for
/// [`Vbo::update`].
pub fn quad_vertices(
    x0: Scalar,
    x1: Scalar,
    y0: Scalar,
    y1: Scalar,
    s0: Scalar,
    s1: Scalar,
    t0: Scalar,
    t1: Scalar,
) -> (v: Vec<Scalar>)
    ensures
        v@ == quad_seq(x0, x1, y0, y1, s0, s1, t0, t1),
{
    let mut v: Vec<Scalar> = Vec::new();
    v.push(x1);
    v.push(y1);
    v.push(s1);
    v.push(t1);
    v.push(x1);
    v.push(y0);
    v.push(s1);
    v.push(t0);
    v.push(x0);
    v.push(y1);
    v.push(s0);
    v.push(t1);
    v.push(x1);
    v.push(y0);
    v.push(s1);
    v.push(t0);
    v.push(x0);
    v.push(y0);
    v.push(s0);
    v.push(t0);
    v.push(x0);
    v.push(y1);
    v.push(s0);
    v.push(t1);
    proof {
        assert(v@ =~= quad_seq(x0, x1, y0, y1, s0, s1, t0, t1));
    }
    v
}

/// Copies a buffer of bit patterns.
pub(crate) fn clone_words(v: &Vec<u32>) -> (r: Vec<u32>)
    ensures
        r@ == v@,
{
    let mut r: Vec<u32> = Vec::new();
    let n = v.len();
    let mut i: usize = 0;
    while i < n
        invariant
            n == v@.len(),
            i <= n,
            r@ == v@.take(i as int),
        decreases n - i,
    {
        r.push(v[i]);
        proof {
            assert(v@.take(i + 1) =~= v@.take(i as int).push(v@[i as int]));
        }
        i = i + 1;
    }
    proof {
        assert(v@.take(n as int) =~= v@);
    }
    r
}

/// Copies a buffer of scalars.
pub(crate) fn clone_scalars(v: &Vec<Scalar>) -> (r: Vec<Scalar>)
    ensures
        r@ == v@,
{
    let mut r: Vec<Scalar> = Vec::new();
    let n = v.len();
    let mut i: usize = 0;
    while i < n
        invariant
            n == v@.len(),
            i <= n,
            r@ == v@.take(i as int),
        decreases n - i,
    {
        r.push(v[i]);
        proof {
            assert(v@.take(i + 1) =~= v@.take(i as int).push(v@[i as int]));
        }
        i = i + 1;
    }
    proof {
        assert(v@.take(n as int) =~= v@);
    }
    r
}

} // verus!
