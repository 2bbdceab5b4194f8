use vstd::prelude::*;
use crate::buffers::{
    interleaved_layout, is_interleaved_layout, layout_fits, with_binding, with_bindings,
    AttributeBinding, ElementBufferObject, VertexArrayObject, VertexBufferObject,
};
use crate::errors::{draw_status_from_error, is_status_for, DrawStatus, CONTEXT_LOST};
use crate::shaders::ShaderProgram;
use crate::shapes::{plan_draw, spec_plan, DrawCall};

verus! {

/// Message of a call refused because the rendering context was lost earlier.
pub open spec fn context_lost_message() -> Seq<char> {
    "rendering context is lost; no further calls are made"@
}

/// What a shape's draw does once it is allowed: make `program` current,
/// point each of `layout`, and issue `call`.
pub struct DrawPlan {
    pub program: u32,
    pub layout: Vec<AttributeBinding>,
    pub call: DrawCall,
}

/// The driver's current bindings, kept explicitly, and whether the context
/// has been lost. Calls that depend on a binding are allowed only once that
/// binding is in place; loss cannot be undone, and once it is seen every later
/// call is refused before it reaches the driver.
pub struct RenderContext {
    m_lost: bool,
    m_vertex_array: Option<u32>,
    m_array_buffer: Option<u32>,
    m_element_buffer: Option<u32>,
    m_program: Option<u32>,
}

impl RenderContext {
    pub closed spec fn spec_lost(&self) -> bool {
        self.m_lost
    }

    pub closed spec fn spec_vertex_array(&self) -> Option<u32> {
        self.m_vertex_array
    }

    pub closed spec fn spec_array_buffer(&self) -> Option<u32> {
        self.m_array_buffer
    }

    pub closed spec fn spec_element_buffer(&self) -> Option<u32> {
        self.m_element_buffer
    }

    pub closed spec fn spec_program(&self) -> Option<u32> {
        self.m_program
    }

    /// Whether attributes can be configured into `vao` from `vbo`: both bound.
    pub open spec fn spec_can_configure(&self, vao: u32, vbo: u32) -> bool {
        &&& !self.spec_lost()
        &&& self.spec_vertex_array() == Some(vao)
        &&& self.spec_array_buffer() == Some(vbo)
    }

    /// Whether an indexed draw from `ebo` can be issued: a vertex array, the
    /// index buffer and a program are bound.
    pub open spec fn spec_can_draw_elements(&self, ebo: u32) -> bool {
        &&& !self.spec_lost()
        &&& self.spec_vertex_array() is Some
        &&& self.spec_element_buffer() == Some(ebo)
        &&& self.spec_program() is Some
    }

    /// A context that has not been lost, with nothing bound.
    pub fn new() -> (r: RenderContext)
        ensures
            !r.spec_lost(),
            r.spec_vertex_array() is None,
            r.spec_array_buffer() is None,
            r.spec_element_buffer() is None,
            r.spec_program() is None,
    {
        RenderContext {
            m_lost: false,
            m_vertex_array: None,
            m_array_buffer: None,
            m_element_buffer: None,
            m_program: None,
        }
    }

    pub fn is_lost(&self) -> (r: bool)
        ensures
            r == self.spec_lost(),
    {
        self.m_lost
    }

    /// Whether a call may be made: `Success` while the context is not lost,
    /// otherwise a failure whose message tells the refusal apart from any
    /// driver error.
    pub fn check_usable(&self) -> (r: DrawStatus)
        ensures
            r is Success <==> !self.spec_lost(),
            r is Failed ==> r->Failed_0@ == context_lost_message(),
    {
        if self.m_lost {
            DrawStatus::Failed("rendering context is lost; no further calls are made".to_owned())
        } else {
            DrawStatus::Success
        }
    }

    /// Records the driver error `code` read after a call and maps it to a
    /// status; a `CONTEXT_LOST` code marks the context lost for good.
    pub fn record_error(&mut self, code: u32) -> (r: DrawStatus)
        ensures
            is_status_for(r, code),
            final(self).spec_lost() == (old(self).spec_lost() || code == CONTEXT_LOST),
            final(self).spec_vertex_array() == old(self).spec_vertex_array(),
            final(self).spec_array_buffer() == old(self).spec_array_buffer(),
            final(self).spec_element_buffer() == old(self).spec_element_buffer(),
            final(self).spec_program() == old(self).spec_program(),
    {
        if code == CONTEXT_LOST {
            self.m_lost = true;
        }
        draw_status_from_error(code)
    }

    /// Notes that `vao` is now the bound vertex array.
    pub fn bind_vertex_array(&mut self, vao: &VertexArrayObject)
        ensures
            final(self).spec_vertex_array() == Some(vao.spec_id()),
            final(self).spec_lost() == old(self).spec_lost(),
            final(self).spec_array_buffer() == old(self).spec_array_buffer(),
            final(self).spec_element_buffer() == old(self).spec_element_buffer(),
            final(self).spec_program() == old(self).spec_program(),
    {
        self.m_vertex_array = Some(vao.get_id());
    }

    /// Notes that `vbo` is now the bound array buffer.
    pub fn bind_array_buffer(&mut self, vbo: &VertexBufferObject)
        ensures
            final(self).spec_array_buffer() == Some(vbo.spec_id()),
            final(self).spec_lost() == old(self).spec_lost(),
            final(self).spec_vertex_array() == old(self).spec_vertex_array(),
            final(self).spec_element_buffer() == old(self).spec_element_buffer(),
            final(self).spec_program() == old(self).spec_program(),
    {
        self.m_array_buffer = Some(vbo.get_id());
    }

    /// Notes that `ebo` is now the bound element buffer.
    pub fn bind_element_buffer(&mut self, ebo: &ElementBufferObject)
        ensures
            final(self).spec_element_buffer() == Some(ebo.spec_id()),
            final(self).spec_lost() == old(self).spec_lost(),
            final(self).spec_vertex_array() == old(self).spec_vertex_array(),
            final(self).spec_array_buffer() == old(self).spec_array_buffer(),
            final(self).spec_program() == old(self).spec_program(),
    {
        self.m_element_buffer = Some(ebo.get_id());
    }

    /// Makes `program` current if it can be: only a linked, unreleased
    /// program can. Returns the handle to make current, or `None` and the
    /// context unchanged.
    pub fn use_program(&mut self, program: &ShaderProgram) -> (r: Option<u32>)
        ensures
            r == program.spec_usable_handle(),
            final(self).spec_program() == (if r is Some {
                r
            } else {
                old(self).spec_program()
            }),
            final(self).spec_lost() == old(self).spec_lost(),
            final(self).spec_vertex_array() == old(self).spec_vertex_array(),
            final(self).spec_array_buffer() == old(self).spec_array_buffer(),
            final(self).spec_element_buffer() == old(self).spec_element_buffer(),
    {
        let h = program.active_handle();
        if h.is_some() {
            self.m_program = h;
        }
        h
    }

    /// Records binding `b` into `vao` if the context is usable and `vao` and
    /// `vbo` are the bound vertex array and array buffer; returns whether it
    /// did. Nothing changes otherwise.
    pub fn configure_attribute(
        &self,
        vao: &mut VertexArrayObject,
        vbo: &VertexBufferObject,
        b: AttributeBinding,
    ) -> (r: bool)
        requires
            old(vao).wf(),
        ensures
            r == self.spec_can_configure(old(vao).spec_id(), vbo.spec_id()),
            final(vao).wf(),
            final(vao).spec_id() == old(vao).spec_id(),
            final(vao).spec_bindings() == (if r {
                with_binding(old(vao).spec_bindings(), b)
            } else {
                old(vao).spec_bindings()
            }),
    {
        if !self.m_lost && self.m_vertex_array == Some(vao.get_id()) && self.m_array_buffer == Some(
            vbo.get_id(),
        ) {
            vao.configure_attribute(b);
            true
        } else {
            false
        }
    }

    /// Whether an indexed draw from `ebo` may be issued now.
    pub fn can_draw_elements(&self, ebo: &ElementBufferObject) -> (r: bool)
        ensures
            r == self.spec_can_draw_elements(ebo.spec_id()),
    {
        !self.m_lost && self.m_vertex_array.is_some() && self.m_element_buffer == Some(ebo.get_id())
            && self.m_program.is_some()
    }

    /// Decides a shape's draw: the context must be usable, `program` linked
    /// and unreleased, the layout of `component_counts` must fit, and the
    /// draw call planned from `indices` must exist; the first of these that
    /// fails gives the error, in that order. On success `vao`, `vbo` and the
    /// program are noted as bound, the layout is configured into `vao`, and
    /// for an indexed draw `ebo` is noted as bound; the plan says which
    /// program to use, which bindings to point, and which call to issue.
    pub fn prepare_draw(
        &mut self,
        vao: &mut VertexArrayObject,
        vbo: &VertexBufferObject,
        ebo: &ElementBufferObject,
        program: &ShaderProgram,
        component_counts: &Vec<i32>,
        indices: &Vec<u32>,
    ) -> (r: Result<DrawPlan, DrawStatus>)
        requires
            old(vao).wf(),
        ensures
            final(vao).wf(),
            final(vao).spec_id() == old(vao).spec_id(),
            final(self).spec_lost() == old(self).spec_lost(),
            old(self).spec_lost() ==> r is Err && r->Err_0 is Failed && r->Err_0->Failed_0@
                == context_lost_message(),
            !old(self).spec_lost() && program.spec_usable_handle() is None ==> r is Err
                && r->Err_0 is Failed && r->Err_0->Failed_0@ == "program has not linked"@,
            !old(self).spec_lost() && program.spec_usable_handle() is Some && !layout_fits(
                component_counts@,
            ) ==> r is Err && r->Err_0 is Failed && r->Err_0->Failed_0@
                == "vertex layout does not fit"@,
            !old(self).spec_lost() && program.spec_usable_handle() is Some && layout_fits(
                component_counts@,
            ) && spec_plan(program.spec_has_geometry(), indices@) is None ==> r is Err
                && r->Err_0 is Failed && r->Err_0->Failed_0@
                == "shape has no drawable index data"@,
            r is Ok <==> !old(self).spec_lost() && program.spec_usable_handle() is Some
                && layout_fits(component_counts@) && spec_plan(
                program.spec_has_geometry(),
                indices@,
            ) is Some,
            r is Ok ==> {
                &&& Some(r->Ok_0.program) == program.spec_usable_handle()
                &&& is_interleaved_layout(component_counts@, r->Ok_0.layout@)
                &&& Some(r->Ok_0.call) == spec_plan(program.spec_has_geometry(), indices@)
                &&& final(vao).spec_bindings() == with_bindings(
                    old(vao).spec_bindings(),
                    r->Ok_0.layout@,
                )
                &&& final(self).spec_vertex_array() == Some(old(vao).spec_id())
                &&& final(self).spec_array_buffer() == Some(vbo.spec_id())
                &&& final(self).spec_program() == program.spec_usable_handle()
                &&& (r->Ok_0.call is Elements ==> final(self).spec_can_draw_elements(
                    ebo.spec_id(),
                ))
            },
            r is Err ==> final(vao).spec_bindings() == old(vao).spec_bindings(),
    {
        if self.m_lost {
            return Err(self.check_usable());
        }
        let handle = match program.active_handle() {
            Some(h) => h,
            None => {
                return Err(DrawStatus::Failed("program has not linked".to_owned()));
            },
        };
        let layout = match interleaved_layout(component_counts) {
            Some(l) => l,
            None => {
                return Err(DrawStatus::Failed("vertex layout does not fit".to_owned()));
            },
        };
        let call = match plan_draw(program.has_geometry_shader(), indices) {
            Some(c) => c,
            None => {
                return Err(DrawStatus::Failed("shape has no drawable index data".to_owned()));
            },
        };
        self.m_vertex_array = Some(vao.get_id());
        self.m_array_buffer = Some(vbo.get_id());
        self.m_program = Some(handle);
        let ghost start = vao.spec_bindings();
        let mut i: usize = 0;
        while i < layout.len()
            invariant
                i <= layout@.len(),
                vao.wf(),
                vao.spec_id() == old(vao).spec_id(),
                start == old(vao).spec_bindings(),
                vao.spec_bindings() == with_bindings(start, layout@.subrange(0, i as int)),
            decreases layout@.len() - i,
        {
            vao.configure_attribute(layout[i]);
            assert(layout@.subrange(0, i as int + 1).drop_last() =~= layout@.subrange(0, i as int));
            i = i + 1;
        }
        assert(layout@.subrange(0, layout@.len() as int) =~= layout@);
        if let DrawCall::Elements { .. } = call {
            self.m_element_buffer = Some(ebo.get_id());
        }
        Ok(DrawPlan { program: handle, layout, call })
    }
}

} // verus!
