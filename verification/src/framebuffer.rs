//! Framebuffers: render targets made of textures.
//!
//! A framebuffer holds its color attachments in slot order and at most one
//! depth attachment. Attachments are only ever added.

use crate::device::{append_calls, view_calls, Call, DeviceCall, DeviceCallView};
use crate::glconst;
use crate::texture::{
    spec_create_calls, spec_release_calls, FilteringMode, Texture, TextureFormat, WrapMode,
};
use vstd::prelude::*;

verus! {

/// The attachment point of color slot 0; slot `i` is
/// `COLOR_ATTACHMENT_BASE + i`.
pub const COLOR_ATTACHMENT_BASE: u32 = 0x8CE0;

/// The attachment point of the depth texture.
pub const DEPTH_ATTACHMENT: u32 = 0x8D00;

/// A render target and the textures attached to it.
#[derive(Debug, PartialEq, Eq)]
pub struct Framebuffer {
    id: u32,
    color: Vec<Texture>,
    depth_stencil: Option<Texture>,
}

/// What a [`Framebuffer`] holds: its device handle, its color attachments in
/// slot order, and its depth attachment.
pub struct FramebufferView {
    pub id: u32,
    pub color: Seq<Texture>,
    pub depth_stencil: Option<Texture>,
}

impl FramebufferView {
    /// A framebuffer without attachments.
    pub open spec fn empty(id: u32) -> FramebufferView {
        FramebufferView { id, color: Seq::empty(), depth_stencil: None }
    }

    /// Every color attachment is a color texture, the depth attachment is a
    /// depth texture, and every occupied color slot has an attachment point.
    pub open spec fn wf(self) -> bool {
        &&& forall|i: int|
            0 <= i < self.color.len() ==> (#[trigger] self.color[i]).format == TextureFormat::Rgba
        &&& self.depth_stencil matches Some(t) ==> t.format == TextureFormat::Depth
        &&& COLOR_ATTACHMENT_BASE + self.color.len() <= u32::MAX
    }

    /// Whether a texture of this format can be attached: a color texture
    /// while the number of the next slot's attachment point is a 32-bit
    /// number, a depth texture while there is none yet, a depth-stencil
    /// texture never.
    ///
    /// The number of color textures has no other bound. The device names 32
    /// color attachment points; slot 32 has the number of the depth attachment
    /// point.
    pub open spec fn accepts(self, format: TextureFormat) -> bool {
        match format {
            TextureFormat::Rgba => COLOR_ATTACHMENT_BASE + self.color.len() < u32::MAX,
            TextureFormat::Depth => self.depth_stencil is None,
            TextureFormat::DepthStencil => false,
        }
    }

    /// The attachment point that a texture of this format goes to.
    pub open spec fn attachment_point(self, format: TextureFormat) -> u32 {
        match format {
            TextureFormat::Rgba => (COLOR_ATTACHMENT_BASE + self.color.len()) as u32,
            _ => DEPTH_ATTACHMENT,
        }
    }

    /// The framebuffer after `texture` was attached: a color texture takes
    /// the next free slot, a depth texture the depth slot.
    pub open spec fn attach(self, texture: Texture) -> FramebufferView {
        match texture.format {
            TextureFormat::Rgba => FramebufferView { color: self.color.push(texture), ..self },
            _ => FramebufferView { depth_stencil: Some(texture), ..self },
        }
    }

    /// The calls that attach `texture`.
    pub open spec fn attach_calls(self, texture: Texture) -> Seq<DeviceCallView> {
        seq![
            Call::BindFramebuffer { framebuffer: self.id },
            Call::FramebufferTexture2D {
                attachment: self.attachment_point(texture.format),
                texture: texture.id,
            },
        ]
    }

    /// The framebuffer after the textures were attached one after the other.
    pub open spec fn attach_all(self, textures: Seq<Texture>) -> FramebufferView
        decreases textures.len(),
    {
        if textures.len() == 0 {
            self
        } else {
            self.attach_all(textures.drop_last()).attach(textures.last())
        }
    }

    /// The attachment points of the color attachments, in slot order.
    pub open spec fn draw_buffers(self) -> Seq<u32> {
        Seq::new(self.color.len(), |i: int| (COLOR_ATTACHMENT_BASE + i) as u32)
    }

    /// The calls that make the framebuffer the draw target and declare its
    /// color outputs.
    pub open spec fn bind_calls(self) -> Seq<DeviceCallView> {
        seq![
            Call::BindFramebuffer { framebuffer: self.id },
            Call::DrawBuffers { attachments: self.draw_buffers() },
        ]
    }

    /// The calls that destroy the first `n` color attachments.
    pub open spec fn release_color_calls(self, n: nat) -> Seq<DeviceCallView>
        decreases n,
    {
        if n == 0 {
            Seq::empty()
        } else {
            self.release_color_calls((n - 1) as nat) + spec_release_calls(self.color[n - 1].id)
        }
    }

    /// The calls that destroy the framebuffer and then its textures: the
    /// color attachments in slot order, then the depth attachment.
    pub open spec fn release_calls(self) -> Seq<DeviceCallView> {
        seq![Call::DeleteFramebuffer { framebuffer: self.id }] + self.release_color_calls(
            self.color.len(),
        ) + match self.depth_stencil {
            Some(t) => spec_release_calls(t.id),
            None => Seq::empty(),
        }
    }
}

/// The texture that a framebuffer creates for one requested format.
pub open spec fn spec_target(id: u32, w: usize, h: usize, format: TextureFormat) -> Texture {
    Texture {
        id,
        width: w,
        height: h,
        filtering_mode: FilteringMode::Nearest,
        wrap_mode: WrapMode::Repeat,
        format,
    }
}

/// The textures that a framebuffer creates for the first `n` requested
/// formats, on the handles given for them.
pub open spec fn spec_targets(
    w: usize,
    h: usize,
    formats: Seq<TextureFormat>,
    ids: Seq<u32>,
    n: nat,
) -> Seq<Texture> {
    Seq::new(n, |i: int| spec_target(ids[i], w, h, formats[i]))
}

/// Whether a framebuffer can be made of textures of these formats: each is a
/// color or a depth format, at most one is a depth format, and every slot has
/// an attachment point.
pub open spec fn spec_formats_valid(formats: Seq<TextureFormat>) -> bool {
    &&& forall|i: int| 0 <= i < formats.len() ==> formats[i] != TextureFormat::DepthStencil
    &&& forall|i: int, j: int|
        0 <= i < j < formats.len() && formats[i] == TextureFormat::Depth ==> formats[j]
            != TextureFormat::Depth
    &&& COLOR_ATTACHMENT_BASE + formats.len() <= u32::MAX
}

/// The calls that create and attach the first `n` textures of a new
/// framebuffer, one texture after the other.
pub open spec fn spec_new_calls(
    id: u32,
    w: usize,
    h: usize,
    formats: Seq<TextureFormat>,
    ids: Seq<u32>,
    n: nat,
) -> Seq<DeviceCallView>
    decreases n,
{
    if n == 0 {
        Seq::empty()
    } else {
        let k = (n - 1) as nat;
        let before = FramebufferView::empty(id).attach_all(spec_targets(w, h, formats, ids, k));
        spec_new_calls(id, w, h, formats, ids, k) + spec_create_calls(
            ids[k as int],
            formats[k as int],
            w,
            h,
            None,
        ) + before.attach_calls(spec_target(ids[k as int], w, h, formats[k as int]))
    }
}

impl View for Framebuffer {
    type V = FramebufferView;

    closed spec fn view(&self) -> FramebufferView {
        FramebufferView { id: self.id, color: self.color@, depth_stencil: self.depth_stencil }
    }
}

impl Framebuffer {
    #[verifier::type_invariant]
    spec fn inv(&self) -> bool {
        self@.wf()
    }

    /// A framebuffer on the fresh device handle `id`, without attachments.
    pub fn new_empty(id: u32) -> (fb: Framebuffer)
        ensures
            fb@ == FramebufferView::empty(id),
            fb@.wf(),
    {
        Framebuffer { id, color: Vec::new(), depth_stencil: None }
    }

    /// Whether textures of these formats can make up a framebuffer.
    pub fn formats_valid(bindings: &[TextureFormat]) -> (r: bool)
        ensures
            r == spec_formats_valid(bindings@),
    {
        if bindings.len() > (u32::MAX - COLOR_ATTACHMENT_BASE) as usize {
            return false;
        }
        let mut seen_depth = false;
        let mut k: usize = 0;
        while k < bindings.len()
            invariant
                k <= bindings@.len(),
                COLOR_ATTACHMENT_BASE + bindings@.len() <= u32::MAX,
                forall|i: int| 0 <= i < k ==> bindings@[i] != TextureFormat::DepthStencil,
                forall|i: int, j: int|
                    0 <= i < j < k && bindings@[i] == TextureFormat::Depth ==> bindings@[j]
                        != TextureFormat::Depth,
                seen_depth <==> exists|i: int| 0 <= i < k && bindings@[i] == TextureFormat::Depth,
            decreases bindings@.len() - k,
        {
            match bindings[k] {
                TextureFormat::Rgba => {},
                TextureFormat::Depth => {
                    if seen_depth {
                        return false;
                    }
                    seen_depth = true;
                },
                TextureFormat::DepthStencil => {
                    return false;
                },
            }
            k += 1;
        }
        true
    }

    /// A framebuffer on the fresh device handle `id` with one new texture of
    /// size `w` by `h` for each requested format, attached in the order of
    /// the request. Texture `i` is created on the fresh handle
    /// `texture_ids[i]`.
    ///
    /// The request must be valid: see [`Framebuffer::formats_valid`].
    pub fn new(id: u32, w: usize, h: usize, bindings: &[TextureFormat], texture_ids: &[u32]) -> (r:
        (Framebuffer, Vec<DeviceCall>))
        requires
            spec_formats_valid(bindings@),
            texture_ids@.len() == bindings@.len(),
        ensures
            r.0@ == FramebufferView::empty(id).attach_all(
                spec_targets(w, h, bindings@, texture_ids@, bindings@.len()),
            ),
            r.0@.wf(),
            view_calls(r.1@) == spec_new_calls(id, w, h, bindings@, texture_ids@, bindings@.len()),
    {
        let mut fb = Framebuffer::new_empty(id);
        let mut calls: Vec<DeviceCall> = Vec::new();
        let mut k: usize = 0;
        assert(spec_targets(w, h, bindings@, texture_ids@, 0) =~= Seq::empty());
        assert(view_calls(calls@) =~= spec_new_calls(id, w, h, bindings@, texture_ids@, 0));
        while k < bindings.len()
            invariant
                k <= bindings@.len(),
                spec_formats_valid(bindings@),
                texture_ids@.len() == bindings@.len(),
                fb@ == FramebufferView::empty(id).attach_all(
                    spec_targets(w, h, bindings@, texture_ids@, k as nat),
                ),
                fb@.wf(),
                fb@.color.len() <= k,
                fb@.depth_stencil is Some ==> exists|i: int|
                    0 <= i < k && bindings@[i] == TextureFormat::Depth,
                view_calls(calls@) == spec_new_calls(id, w, h, bindings@, texture_ids@, k as nat),
            decreases bindings@.len() - k,
        {
            let format = bindings[k];
            let (texture, create) = match format {
                TextureFormat::Rgba => Texture::new_rgba(texture_ids[k], w, h),
                TextureFormat::Depth => Texture::new_depth(texture_ids[k], w, h),
                TextureFormat::DepthStencil => Texture::new_depth_stencil(texture_ids[k], w, h),
            };
            assert(texture == spec_target(texture_ids@[k as int], w, h, bindings@[k as int]));
            proof {
                let next = spec_targets(w, h, bindings@, texture_ids@, (k + 1) as nat);
                assert(next.drop_last() =~= spec_targets(w, h, bindings@, texture_ids@, k as nat));
                assert(next.last() == texture);
            }
            append_calls(&mut calls, create);
            let attach = fb.add_target(texture);
            append_calls(&mut calls, attach);
            k += 1;
        }
        (fb, calls)
    }

    /// The call that restores the default surface as the draw target.
    pub fn unbind() -> (calls: Vec<DeviceCall>)
        ensures
            view_calls(calls@) == spec_unbind_calls(),
    {
        let calls = vec![Call::BindFramebuffer { framebuffer: 0 }];
        assert(view_calls(calls@) =~= spec_unbind_calls());
        calls
    }

    /// Makes this framebuffer the draw target and declares its color
    /// attachments, ordered by slot, as the color outputs: output `i` goes to
    /// slot `i`.
    pub fn bind(&self) -> (calls: Vec<DeviceCall>)
        ensures
            view_calls(calls@) == self@.bind_calls(),
    {
        proof {
            use_type_invariant(self);
        }
        let base = glconst::color_attachment0();
        let mut attachments: Vec<u32> = Vec::new();
        let mut i: usize = 0;
        while i < self.color.len()
            invariant
                i <= self.color@.len(),
                base == COLOR_ATTACHMENT_BASE,
                COLOR_ATTACHMENT_BASE + self.color@.len() <= u32::MAX,
                attachments@.len() == i,
                forall|j: int| 0 <= j < i ==> attachments@[j] == COLOR_ATTACHMENT_BASE + j,
            decreases self.color@.len() - i,
        {
            attachments.push(base + i as u32);
            i += 1;
        }
        assert(attachments@ =~= self@.draw_buffers());
        let calls = vec![
            Call::BindFramebuffer { framebuffer: self.id },
            Call::DrawBuffers { attachments },
        ];
        assert(view_calls(calls@) =~= self@.bind_calls());
        calls
    }

    /// The device handle.
    pub fn id(&self) -> (r: u32)
        ensures
            r == self@.id,
    {
        self.id
    }

    /// Number of color attachments.
    pub fn color_count(&self) -> (r: usize)
        ensures
            r == self@.color.len(),
    {
        self.color.len()
    }

    /// The texture in color slot `i`.
    pub fn color_target(&self, i: usize) -> (r: &Texture)
        requires
            i < self@.color.len(),
        ensures
            *r == self@.color[i as int],
            r.format == TextureFormat::Rgba,
    {
        proof {
            use_type_invariant(self);
        }
        &self.color[i]
    }

    /// The depth attachment, if there is one.
    pub fn depth_target(&self) -> (r: Option<&Texture>)
        ensures
            r matches Some(t) ==> self@.depth_stencil == Some(*t) && t.format
                == TextureFormat::Depth,
            r is None ==> self@.depth_stencil is None,
    {
        proof {
            use_type_invariant(self);
        }
        self.depth_stencil.as_ref()
    }

    /// Whether [`Framebuffer::add_target`] takes a texture of this format.
    pub fn can_attach(&self, format: TextureFormat) -> (r: bool)
        ensures
            r == self@.accepts(format),
    {
        match format {
            TextureFormat::Rgba => self.color.len() < (u32::MAX - COLOR_ATTACHMENT_BASE) as usize,
            TextureFormat::Depth => self.depth_stencil.is_none(),
            TextureFormat::DepthStencil => false,
        }
    }

    /// Binds the framebuffer and attaches `texture` to it: a color texture to
    /// the next free color slot, a depth texture to the depth slot.
    ///
    /// The framebuffer must accept the texture's format: a second depth
    /// texture, or a depth-stencil texture, is a misuse that
    /// [`Framebuffer::can_attach`] detects beforehand.
    pub fn add_target(&mut self, texture: Texture) -> (calls: Vec<DeviceCall>)
        requires
            old(self)@.accepts(texture.format),
        ensures
            final(self)@ == old(self)@.attach(texture),
            final(self)@.wf(),
            view_calls(calls@) == old(self)@.attach_calls(texture),
    {
        proof {
            use_type_invariant(&*self);
        }
        let ghost before = self@;
        let mut calls = vec![Call::BindFramebuffer { framebuffer: self.id }];
        match texture.format {
            TextureFormat::Rgba => {
                let attachment = glconst::color_attachment0() + self.color.len() as u32;
                calls.push(Call::FramebufferTexture2D { attachment, texture: texture.id });
                // The list is extended outside the framebuffer, which stays
                // well-formed at every step.
                let mut color: Vec<Texture> = Vec::new();
                core::mem::swap(&mut self.color, &mut color);
                color.push(texture);
                core::mem::swap(&mut self.color, &mut color);
            },
            _ => {
                let attachment = glconst::depth_attachment();
                calls.push(Call::FramebufferTexture2D { attachment, texture: texture.id });
                self.depth_stencil = Some(texture);
            },
        }
        assert(self@ =~= before.attach(texture));
        assert(view_calls(calls@) =~= before.attach_calls(texture));
        calls
    }

    /// Makes this framebuffer the draw target, ready to be cleared.
    pub fn clear(&self) -> (calls: Vec<DeviceCall>)
        ensures
            view_calls(calls@) == self@.bind_calls(),
    {
        self.bind()
    }

    /// Gives the framebuffer up: the calls that destroy it and the textures
    /// attached to it.
    pub fn release(self) -> (calls: Vec<DeviceCall>)
        ensures
            view_calls(calls@) == self@.release_calls(),
    {
        let mut calls = vec![Call::DeleteFramebuffer { framebuffer: self.id }];
        let ghost head = view_calls(calls@);
        assert(head =~= seq![Call::DeleteFramebuffer { framebuffer: self.id }]);
        let mut i: usize = 0;
        while i < self.color.len()
            invariant
                i <= self.color@.len(),
                view_calls(calls@) == head + self@.release_color_calls(i as nat),
            decreases self.color@.len() - i,
        {
            let ghost before = view_calls(calls@);
            calls.push(Call::DeleteTexture { texture: self.color[i].id });
            i += 1;
            assert(view_calls(calls@) =~= before + spec_release_calls(self@.color[i - 1].id));
            assert(self@.release_color_calls(i as nat) == self@.release_color_calls((i - 1) as nat)
                + spec_release_calls(self@.color[i - 1].id));
        }
        match &self.depth_stencil {
            Some(t) => {
                calls.push(Call::DeleteTexture { texture: t.id });
            },
            None => {},
        }
        assert(view_calls(calls@) =~= self@.release_calls());
        calls
    }
}

/// The call that restores the default surface as the draw target.
pub open spec fn spec_unbind_calls() -> Seq<DeviceCallView> {
    seq![Call::BindFramebuffer { framebuffer: 0 }]
}

/// Attaching a color texture adds it behind the color attachments that are
/// there: the framebuffer has one color attachment more, the new texture is
/// the last one, and the earlier color attachments, the depth attachment and
/// the device handle are what they were.
pub proof fn lemma_attach_color_appends(fb: FramebufferView, texture: Texture)
    requires
        texture.format == TextureFormat::Rgba,
    ensures
        fb.attach(texture).color.len() == fb.color.len() + 1,
        fb.attach(texture).color[fb.color.len() as int] == texture,
        forall|i: int| 0 <= i < fb.color.len() ==> fb.attach(texture).color[i] == fb.color[i],
        fb.attach(texture).depth_stencil == fb.depth_stencil,
        fb.attach(texture).id == fb.id,
{
}

/// Color textures attached one after the other are reported in the order of
/// their attachment, behind the color attachments that were there before:
/// none is dropped, none comes twice, none changes its place. The depth
/// attachment and the device handle stay what they were.
pub proof fn lemma_attach_all_colors_appends(fb: FramebufferView, textures: Seq<Texture>)
    requires
        forall|i: int| 0 <= i < textures.len() ==> textures[i].format == TextureFormat::Rgba,
    ensures
        fb.attach_all(textures).color == fb.color + textures,
        fb.attach_all(textures).depth_stencil == fb.depth_stencil,
        fb.attach_all(textures).id == fb.id,
    decreases textures.len(),
{
    if textures.len() > 0 {
        lemma_attach_all_colors_appends(fb, textures.drop_last());
        assert(fb.attach_all(textures).color =~= fb.color + textures);
    } else {
        assert(fb.attach_all(textures).color =~= fb.color + textures);
    }
}

/// Color textures attached one after the other to an empty framebuffer
/// occupy the color slots in the order of their attachment: the framebuffer
/// has as many color attachments as textures were attached, and reports
/// texture `i` in slot `i`.
pub proof fn lemma_color_attachments_in_insertion_order(id: u32, textures: Seq<Texture>)
    requires
        forall|i: int| 0 <= i < textures.len() ==> textures[i].format == TextureFormat::Rgba,
    ensures
        FramebufferView::empty(id).attach_all(textures).color == textures,
        FramebufferView::empty(id).attach_all(textures).color.len() == textures.len(),
        forall|i: int|
            0 <= i < textures.len() ==> FramebufferView::empty(id).attach_all(textures).color[i]
                == textures[i],
        FramebufferView::empty(id).attach_all(textures).depth_stencil is None,
        FramebufferView::empty(id).attach_all(textures).id == id,
{
    lemma_attach_all_colors_appends(FramebufferView::empty(id), textures);
    assert(FramebufferView::empty(id).color + textures =~= textures);
}

/// While every slot has an attachment point, color textures attached one
/// after the other to an empty framebuffer are each accepted, texture `i`
/// goes to the attachment point of slot `i`, and the color outputs are
/// declared in that order.
pub proof fn lemma_color_attachment_points_in_slot_order(id: u32, textures: Seq<Texture>)
    requires
        forall|i: int| 0 <= i < textures.len() ==> textures[i].format == TextureFormat::Rgba,
        COLOR_ATTACHMENT_BASE + textures.len() <= u32::MAX,
    ensures
        FramebufferView::empty(id).attach_all(textures).wf(),
        forall|i: int|
            0 <= i < textures.len() ==> {
                let before = FramebufferView::empty(id).attach_all(#[trigger] textures.take(i));
                &&& before.accepts(TextureFormat::Rgba)
                &&& before.attachment_point(TextureFormat::Rgba) == COLOR_ATTACHMENT_BASE + i
            },
        FramebufferView::empty(id).attach_all(textures).draw_buffers().len() == textures.len(),
        forall|i: int|
            0 <= i < textures.len() ==> #[trigger] FramebufferView::empty(id).attach_all(
                textures,
            ).draw_buffers()[i] == COLOR_ATTACHMENT_BASE + i,
{
    lemma_color_attachments_in_insertion_order(id, textures);
    assert forall|i: int| 0 <= i < textures.len() implies {
        let before = FramebufferView::empty(id).attach_all(#[trigger] textures.take(i));
        &&& before.accepts(TextureFormat::Rgba)
        &&& before.attachment_point(TextureFormat::Rgba) == COLOR_ATTACHMENT_BASE + i
    } by {
        lemma_color_attachments_in_insertion_order(id, textures.take(i));
    }
}

/// A framebuffer takes one depth texture and no second one: once a depth
/// texture is attached, no further depth texture is accepted, however many
/// color textures are attached afterwards.
pub proof fn lemma_second_depth_is_refused(fb: FramebufferView, depth: Texture, colors: Seq<Texture>)
    requires
        depth.format == TextureFormat::Depth,
        forall|i: int| 0 <= i < colors.len() ==> colors[i].format == TextureFormat::Rgba,
    ensures
        fb.attach(depth).depth_stencil == Some(depth),
        !fb.attach(depth).accepts(TextureFormat::Depth),
        fb.attach(depth).attach_all(colors).depth_stencil == Some(depth),
        !fb.attach(depth).attach_all(colors).accepts(TextureFormat::Depth),
    decreases colors.len(),
{
    if colors.len() > 0 {
        lemma_second_depth_is_refused(fb, depth, colors.drop_last());
    }
}

} // verus!
