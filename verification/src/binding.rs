//! What is bound on the device, and how the calls of this crate change it.
//!
//! The device keeps, for the whole process, one active program, one draw
//! target, one selected texture unit with one texture for each unit, one
//! vertex array and one buffer for each buffer target. Nothing saves or
//! restores these for the caller. This module describes them as a value, so
//! that it can be said of a list of calls what it leaves bound.
//!
//! All of this module is ghost code: nothing in it runs.

use crate::device::{BufferTarget, Call, DeviceCallView, TextureParameter, VertexAttribute};
use crate::framebuffer::{spec_unbind_calls, FramebufferView};
use crate::mesh::{spec_attribute_calls, MeshView};
use crate::program::{spec_sampler_calls, spec_use_calls};
use crate::texture::{
    spec_bind_calls, spec_filtering_calls, spec_wrap_calls, FilteringMode, Texture, WrapMode,
    TEXTURE_UNIT_BASE,
};
use vstd::prelude::*;

verus! {

/// The bindings of the device. Handle `0` stands for "nothing bound"; a
/// texture unit without an entry has no texture.
pub struct Bindings {
    /// The active program.
    pub program: u32,
    /// The draw target; `0` is the default surface.
    pub framebuffer: u32,
    /// The color outputs declared for each framebuffer.
    pub draw_buffers: Map<u32, Seq<u32>>,
    /// The selected texture unit.
    pub active_unit: u32,
    /// The texture bound to each texture unit.
    pub textures: Map<u32, u32>,
    /// The sampling parameters set for each texture.
    pub sampling: Map<(u32, TextureParameter), u32>,
    /// The bound vertex array.
    pub vertex_array: u32,
    /// The buffer bound for vertex records.
    pub vertex_buffer: u32,
    /// The buffer bound for indices.
    pub index_buffer: u32,
}

impl Bindings {
    /// The texture bound to the selected unit.
    pub open spec fn bound_texture(self) -> u32 {
        if self.textures.dom().contains(self.active_unit) {
            self.textures[self.active_unit]
        } else {
            0
        }
    }

    /// The bindings after one call. Calls that create, fill, draw or destroy
    /// bind nothing.
    pub open spec fn apply(self, call: DeviceCallView) -> Bindings {
        match call {
            Call::UseProgram { program } => Bindings { program, ..self },
            Call::BindFramebuffer { framebuffer } => Bindings { framebuffer, ..self },
            Call::DrawBuffers { attachments } => Bindings {
                draw_buffers: self.draw_buffers.insert(self.framebuffer, attachments),
                ..self
            },
            Call::ActiveTexture { unit } => Bindings { active_unit: unit, ..self },
            Call::BindTexture { texture } => Bindings {
                textures: self.textures.insert(self.active_unit, texture),
                ..self
            },
            Call::TexParameter { parameter, setting } => Bindings {
                sampling: self.sampling.insert((self.bound_texture(), parameter), setting),
                ..self
            },
            Call::BindVertexArray { array } => Bindings { vertex_array: array, ..self },
            Call::BindBuffer { target: BufferTarget::Vertices, buffer } => Bindings {
                vertex_buffer: buffer,
                ..self
            },
            Call::BindBuffer { target: BufferTarget::Indices, buffer } => Bindings {
                index_buffer: buffer,
                ..self
            },
            _ => self,
        }
    }

    /// The bindings after a list of calls, issued in order.
    pub open spec fn run(self, calls: Seq<DeviceCallView>) -> Bindings
        decreases calls.len(),
    {
        if calls.len() == 0 {
            self
        } else {
            self.run(calls.drop_last()).apply(calls.last())
        }
    }
}

/// Running two lists one after the other is running their concatenation.
pub proof fn lemma_run_concat(s: Bindings, a: Seq<DeviceCallView>, b: Seq<DeviceCallView>)
    ensures
        s.run(a + b) == s.run(a).run(b),
    decreases b.len(),
{
    if b.len() == 0 {
        assert(a + b =~= a);
    } else {
        lemma_run_concat(s, a, b.drop_last());
        assert((a + b).drop_last() =~= a + b.drop_last());
        assert((a + b).last() == b.last());
    }
}

/// Running a list of one call is applying the call.
pub proof fn lemma_run_one(s: Bindings, c: DeviceCallView)
    ensures
        s.run(seq![c]) == s.apply(c),
{
    assert(seq![c].drop_last() =~= Seq::<DeviceCallView>::empty());
    assert(s.run(seq![c].drop_last()) == s);
}

/// Running a list of two calls is applying one after the other.
pub proof fn lemma_run_two(s: Bindings, c0: DeviceCallView, c1: DeviceCallView)
    ensures
        s.run(seq![c0, c1]) == s.apply(c0).apply(c1),
{
    assert(seq![c0, c1].drop_last() =~= seq![c0]);
    lemma_run_one(s, c0);
}

/// Running a list of three calls is applying one after the other.
pub proof fn lemma_run_three(
    s: Bindings,
    c0: DeviceCallView,
    c1: DeviceCallView,
    c2: DeviceCallView,
)
    ensures
        s.run(seq![c0, c1, c2]) == s.apply(c0).apply(c1).apply(c2),
{
    assert(seq![c0, c1, c2].drop_last() =~= seq![c0, c1]);
    lemma_run_two(s, c0, c1);
}

/// What setting the filtering of a texture leaves: the texture is bound to
/// the selected unit, and its two filters have the mode's value. Nothing else
/// changes.
pub proof fn lemma_filtering_effect(s: Bindings, id: u32, mode: FilteringMode)
    ensures
        s.run(spec_filtering_calls(id, mode)) == (Bindings {
            textures: s.textures.insert(s.active_unit, id),
            sampling: s.sampling.insert(
                (id, TextureParameter::MinFilter),
                mode.spec_gl_enum(),
            ).insert((id, TextureParameter::MagFilter), mode.spec_gl_enum()),
            ..s
        }),
{
    lemma_run_three(
        s,
        Call::BindTexture { texture: id },
        Call::TexParameter { parameter: TextureParameter::MinFilter, setting: mode.spec_gl_enum() },
        Call::TexParameter { parameter: TextureParameter::MagFilter, setting: mode.spec_gl_enum() },
    );
}

/// What setting the wrapping of a texture leaves: the texture is bound to
/// the selected unit, and it wraps in both directions with the mode's value.
/// Nothing else changes.
pub proof fn lemma_wrap_effect(s: Bindings, id: u32, mode: WrapMode)
    ensures
        s.run(spec_wrap_calls(id, mode)) == (Bindings {
            textures: s.textures.insert(s.active_unit, id),
            sampling: s.sampling.insert((id, TextureParameter::WrapS), mode.spec_gl_enum()).insert(
                (id, TextureParameter::WrapT),
                mode.spec_gl_enum(),
            ),
            ..s
        }),
{
    lemma_run_three(
        s,
        Call::BindTexture { texture: id },
        Call::TexParameter { parameter: TextureParameter::WrapS, setting: mode.spec_gl_enum() },
        Call::TexParameter { parameter: TextureParameter::WrapT, setting: mode.spec_gl_enum() },
    );
}

/// Setting the filtering of a texture twice to the same mode is the same as
/// setting it once: the texture is the same after both, and so is the device.
pub proof fn lemma_set_filtering_idempotent(s: Bindings, t: Texture, mode: FilteringMode)
    ensures
        (Texture { filtering_mode: mode, ..(Texture { filtering_mode: mode, ..t }) }) == (Texture {
            filtering_mode: mode,
            ..t
        }),
        s.run(spec_filtering_calls(t.id, mode) + spec_filtering_calls(t.id, mode)) == s.run(
            spec_filtering_calls(t.id, mode),
        ),
{
    let calls = spec_filtering_calls(t.id, mode);
    let once = s.run(calls);
    lemma_run_concat(s, calls, calls);
    lemma_filtering_effect(s, t.id, mode);
    lemma_filtering_effect(once, t.id, mode);
    assert(once.run(calls).textures =~= once.textures);
    assert(once.run(calls).sampling =~= once.sampling);
}

/// Setting the wrapping of a texture twice to the same mode is the same as
/// setting it once.
pub proof fn lemma_set_wrap_idempotent(s: Bindings, t: Texture, mode: WrapMode)
    ensures
        (Texture { wrap_mode: mode, ..(Texture { wrap_mode: mode, ..t }) }) == (Texture {
            wrap_mode: mode,
            ..t
        }),
        s.run(spec_wrap_calls(t.id, mode) + spec_wrap_calls(t.id, mode)) == s.run(
            spec_wrap_calls(t.id, mode),
        ),
{
    let calls = spec_wrap_calls(t.id, mode);
    let once = s.run(calls);
    lemma_run_concat(s, calls, calls);
    lemma_wrap_effect(s, t.id, mode);
    lemma_wrap_effect(once, t.id, mode);
    assert(once.run(calls).textures =~= once.textures);
    assert(once.run(calls).sampling =~= once.sampling);
}

/// Filtering and wrapping of a texture can be set in either order: the
/// texture is the same after both, and so is the device.
pub proof fn lemma_filtering_and_wrap_commute(
    s: Bindings,
    t: Texture,
    filtering: FilteringMode,
    wrap: WrapMode,
)
    ensures
        (Texture { wrap_mode: wrap, ..(Texture { filtering_mode: filtering, ..t }) }) == (Texture {
            filtering_mode: filtering,
            ..(Texture { wrap_mode: wrap, ..t })
        }),
        s.run(spec_filtering_calls(t.id, filtering) + spec_wrap_calls(t.id, wrap)) == s.run(
            spec_wrap_calls(t.id, wrap) + spec_filtering_calls(t.id, filtering),
        ),
{
    let f = spec_filtering_calls(t.id, filtering);
    let w = spec_wrap_calls(t.id, wrap);
    lemma_run_concat(s, f, w);
    lemma_run_concat(s, w, f);
    lemma_filtering_effect(s, t.id, filtering);
    lemma_wrap_effect(s.run(f), t.id, wrap);
    lemma_wrap_effect(s, t.id, wrap);
    lemma_filtering_effect(s.run(w), t.id, filtering);
    let a = s.run(f).run(w);
    let b = s.run(w).run(f);
    assert(a.textures =~= b.textures);
    assert(a.sampling =~= b.sampling);
}

/// Binding a texture to a unit selects the unit and leaves the texture bound
/// to it. The textures of the other units stay.
pub proof fn lemma_bind_texture_effect(s: Bindings, id: u32, index: int)
    requires
        0 <= index,
        TEXTURE_UNIT_BASE + index <= u32::MAX,
    ensures
        s.run(spec_bind_calls(id, index)) == (Bindings {
            active_unit: (TEXTURE_UNIT_BASE + index) as u32,
            textures: s.textures.insert((TEXTURE_UNIT_BASE + index) as u32, id),
            ..s
        }),
{
    lemma_run_two(
        s,
        Call::ActiveTexture { unit: (TEXTURE_UNIT_BASE + index) as u32 },
        Call::BindTexture { texture: id },
    );
}

/// Activating a program twice is the same as activating it once, and changes
/// nothing but the active program.
pub proof fn lemma_program_bind_idempotent(s: Bindings, id: u32)
    ensures
        s.run(spec_use_calls(id)) == (Bindings { program: id, ..s }),
        s.run(spec_use_calls(id) + spec_use_calls(id)) == s.run(spec_use_calls(id)),
{
    lemma_run_one(s, Call::UseProgram { program: id });
    lemma_run_one(s.run(spec_use_calls(id)), Call::UseProgram { program: id });
    lemma_run_concat(s, spec_use_calls(id), spec_use_calls(id));
}

/// Binding a texture to a uniform that the program does not have leaves the
/// program active and nothing else changed: no texture unit is selected and
/// no texture is bound.
pub proof fn lemma_unknown_uniform_leaves_units(
    s: Bindings,
    id: u32,
    location: i32,
    texture: Texture,
    unit: i32,
)
    requires
        location < 0,
    ensures
        s.run(spec_use_calls(id) + spec_sampler_calls(location, texture, unit)) == (Bindings {
            program: id,
            ..s
        }),
{
    assert(spec_use_calls(id) + spec_sampler_calls(location, texture, unit) =~= spec_use_calls(id));
    lemma_run_one(s, Call::UseProgram { program: id });
}

/// Unbinding makes the default surface the draw target, whatever was bound.
pub proof fn lemma_unbind_restores_default(s: Bindings)
    ensures
        s.run(spec_unbind_calls()) == (Bindings { framebuffer: 0, ..s }),
{
    lemma_run_one(s, Call::BindFramebuffer { framebuffer: 0 });
}

/// Binding a framebuffer makes it the draw target and declares its color
/// attachments in slot order as its color outputs.
pub proof fn lemma_framebuffer_bind_effect(s: Bindings, fb: FramebufferView)
    ensures
        s.run(fb.bind_calls()) == (Bindings {
            framebuffer: fb.id,
            draw_buffers: s.draw_buffers.insert(fb.id, fb.draw_buffers()),
            ..s
        }),
{
    lemma_run_two(
        s,
        Call::BindFramebuffer { framebuffer: fb.id },
        Call::DrawBuffers { attachments: fb.draw_buffers() },
    );
}

/// Describing a vertex attribute binds nothing.
pub proof fn lemma_attribute_calls_bind_nothing(s: Bindings, attribute: VertexAttribute)
    ensures
        s.run(spec_attribute_calls(attribute)) == s,
{
    lemma_run_two(
        s,
        Call::VertexAttribPointer { layout: attribute.spec_layout() },
        Call::EnableVertexAttribArray { index: attribute.spec_location() },
    );
}

/// Uploading vertices leaves no vertex array and no vertex buffer bound, and
/// every other binding as it was.
pub proof fn lemma_vertex_upload_leaves_nothing_bound(s: Bindings, mesh: MeshView, data: Seq<u8>)
    ensures
        s.run(mesh.vertex_upload_calls(data)) == (Bindings {
            vertex_array: 0,
            vertex_buffer: 0,
            ..s
        }),
{
    let head = seq![
        Call::BindVertexArray { array: mesh.vao },
        Call::BindBuffer { target: BufferTarget::Vertices, buffer: mesh.vbo },
        Call::BufferData { target: BufferTarget::Vertices, data },
    ];
    let position = spec_attribute_calls(VertexAttribute::Position);
    let normal = spec_attribute_calls(VertexAttribute::Normal);
    let uv = spec_attribute_calls(VertexAttribute::Uv);
    let color = spec_attribute_calls(VertexAttribute::Color);
    let tail = seq![
        Call::BindVertexArray { array: 0 },
        Call::BindBuffer { target: BufferTarget::Vertices, buffer: 0 },
    ];
    lemma_run_three(
        s,
        Call::BindVertexArray { array: mesh.vao },
        Call::BindBuffer { target: BufferTarget::Vertices, buffer: mesh.vbo },
        Call::BufferData { target: BufferTarget::Vertices, data },
    );
    let s1 = s.run(head);
    lemma_run_concat(s, head, position);
    lemma_attribute_calls_bind_nothing(s1, VertexAttribute::Position);
    lemma_run_concat(s, head + position, normal);
    lemma_attribute_calls_bind_nothing(s1, VertexAttribute::Normal);
    lemma_run_concat(s, head + position + normal, uv);
    lemma_attribute_calls_bind_nothing(s1, VertexAttribute::Uv);
    lemma_run_concat(s, head + position + normal + uv, color);
    lemma_attribute_calls_bind_nothing(s1, VertexAttribute::Color);
    lemma_run_concat(s, head + position + normal + uv + color, tail);
    lemma_run_two(
        s1,
        Call::BindVertexArray { array: 0 },
        Call::BindBuffer { target: BufferTarget::Vertices, buffer: 0 },
    );
}

/// Uploading faces leaves no index buffer bound, and every other binding as
/// it was.
pub proof fn lemma_face_upload_leaves_nothing_bound(s: Bindings, mesh: MeshView, data: Seq<u8>)
    ensures
        s.run(mesh.face_upload_calls(data)) == (Bindings { index_buffer: 0, ..s }),
{
    lemma_run_three(
        s,
        Call::BindBuffer { target: BufferTarget::Indices, buffer: mesh.ibo },
        Call::BufferData { target: BufferTarget::Indices, data },
        Call::BindBuffer { target: BufferTarget::Indices, buffer: 0 },
    );
}

} // verus!
