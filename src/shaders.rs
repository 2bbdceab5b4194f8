use vstd::prelude::*;
use vstd::utf8::encode_utf8;
use crate::errors::{ShaderCompile, ShaderLink};

verus! {

/// Status value the driver reports for a successful compile or link.
pub const GL_TRUE: i32 = 1;

/// Driver enum of a vertex stage.
pub const VERTEX_SHADER: u32 = 0x8B31;

/// Driver enum of a geometry stage.
pub const GEOMETRY_SHADER: u32 = 0x8DD9;

/// Driver enum of a fragment stage.
pub const FRAGMENT_SHADER: u32 = 0x8B30;

/// Where a shader stage stands in its compile step.
#[derive(Clone, Copy, Debug, PartialEq, Eq, Structural)]
pub enum CompileState {
    NotCompiled,
    Compiled,
    Failed,
}

/// Where a program stands in its link step.
#[derive(Clone, Copy, Debug, PartialEq, Eq, Structural)]
pub enum LinkState {
    NotLinked,
    Linked,
    Failed,
}

/// Whether the UTF-8 encoding of `s` holds a NUL byte, which the driver
/// cannot receive inside a source string.
pub open spec fn has_nul_byte(s: Seq<char>) -> bool {
    exists|i: int| 0 <= i < encode_utf8(s).len() && #[trigger] encode_utf8(s)[i] == 0u8
}

/// The message of a failed step: the driver's log, or `fallback` when the log
/// is empty, so that a failure never carries an empty message.
pub open spec fn diagnostic(log: Seq<char>, fallback: Seq<char>) -> Seq<char> {
    if log.len() > 0 {
        log
    } else {
        fallback
    }
}

/// Fallback message of a failed compile.
pub open spec fn compile_fallback() -> Seq<char> {
    "shader compilation failed"@
}

/// Fallback message of a failed link.
pub open spec fn link_fallback() -> Seq<char> {
    "program link failed"@
}

fn diagnostic_or(log: String, fallback: &str) -> (r: String)
    ensures
        r@ == diagnostic(log@, fallback@),
{
    if log.as_str().is_empty() {
        fallback.to_owned()
    } else {
        log
    }
}

/// One shader stage: a driver handle, its source text and its stage type.
pub struct Shader {
    m_id: u32,
    m_source: String,
    m_type: u32,
    m_state: CompileState,
    m_released: bool,
}

/// Shorthand for a shader used as the vertex stage.
pub type VertexShader = Shader;

/// Shorthand for a shader used as the geometry stage.
pub type GeometryShader = Shader;

/// Shorthand for a shader used as the fragment stage.
pub type FragmentShader = Shader;

impl Shader {
    pub closed spec fn spec_id(&self) -> u32 {
        self.m_id
    }

    pub closed spec fn spec_source(&self) -> Seq<char> {
        self.m_source@
    }

    pub closed spec fn spec_type(&self) -> u32 {
        self.m_type
    }

    pub closed spec fn spec_state(&self) -> CompileState {
        self.m_state
    }

    pub closed spec fn spec_released(&self) -> bool {
        self.m_released
    }

    /// A stage for the driver handle `id` (made for `shader_type`), holding
    /// `shader_source`, not yet compiled.
    pub fn new_from_string(id: u32, shader_source: String, shader_type: u32) -> (r: Shader)
        ensures
            r.spec_id() == id,
            r.spec_source() == shader_source@,
            r.spec_type() == shader_type,
            r.spec_state() == CompileState::NotCompiled,
            !r.spec_released(),
    {
        Shader {
            m_id: id,
            m_source: shader_source,
            m_type: shader_type,
            m_state: CompileState::NotCompiled,
            m_released: false,
        }
    }

    pub fn is_released(&self) -> (r: bool)
        ensures
            r == self.spec_released(),
    {
        self.m_released
    }

    /// Releases a stage that no program owns: the first call hands back its
    /// handle, for the driver to delete; every later call hands back nothing.
    pub fn release(&mut self) -> (r: Option<u32>)
        ensures
            r == (if old(self).spec_released() {
                None
            } else {
                Some(old(self).spec_id())
            }),
            final(self).spec_released(),
            final(self).spec_id() == old(self).spec_id(),
            final(self).spec_source() == old(self).spec_source(),
            final(self).spec_type() == old(self).spec_type(),
            final(self).spec_state() == old(self).spec_state(),
    {
        if self.m_released {
            None
        } else {
            self.m_released = true;
            Some(self.m_id)
        }
    }

    pub fn get_id(&self) -> (r: u32)
        ensures
            r == self.spec_id(),
    {
        self.m_id
    }

    #[allow(non_snake_case)]
    pub fn Get_ID(&self) -> (r: u32)
        ensures
            r == self.spec_id(),
    {
        self.m_id
    }

    pub fn source(&self) -> (r: &String)
        ensures
            r@ == self.spec_source(),
    {
        &self.m_source
    }

    pub fn shader_type(&self) -> (r: u32)
        ensures
            r == self.spec_type(),
    {
        self.m_type
    }

    pub fn compile_state(&self) -> (r: CompileState)
        ensures
            r == self.spec_state(),
    {
        self.m_state
    }

    /// Whether the source can be handed to the driver: it holds no NUL byte.
    pub fn source_is_submittable(&self) -> (r: bool)
        ensures
            r == !has_nul_byte(self.spec_source()),
    {
        let bytes = self.m_source.as_str().as_bytes();
        let ghost enc = encode_utf8(self.m_source@);
        let mut i: usize = 0;
        while i < bytes.len()
            invariant
                bytes@ == enc,
                enc == encode_utf8(self.m_source@),
                i <= enc.len(),
                forall|j: int| 0 <= j < i ==> enc[j] != 0u8,
            decreases enc.len() - i,
        {
            if bytes[i] == 0u8 {
                return false;
            }
            i = i + 1;
        }
        true
    }

    /// The step before the driver compiles: a released stage, or a source
    /// that cannot be handed to the driver, fails here, with a message, and
    /// the stage is marked failed; otherwise `None`, the stage unchanged, and
    /// the driver goes on.
    pub fn begin_compile(&mut self) -> (r: Option<ShaderCompile>)
        ensures
            r is None <==> !old(self).spec_released() && !has_nul_byte(old(self).spec_source()),
            r is Some && old(self).spec_released() ==> r->Some_0 is Failed
                && r->Some_0->Failed_0@ == "shader has been released"@,
            r is Some && !old(self).spec_released() ==> r->Some_0 is Failed
                && r->Some_0->Failed_0@ == "shader source holds a NUL byte"@,
            final(self).spec_released() == old(self).spec_released(),
            final(self).spec_id() == old(self).spec_id(),
            final(self).spec_source() == old(self).spec_source(),
            final(self).spec_type() == old(self).spec_type(),
            final(self).spec_state() == (if r is None {
                old(self).spec_state()
            } else {
                CompileState::Failed
            }),
    {
        if self.m_released {
            self.m_state = CompileState::Failed;
            return Some(ShaderCompile::Failed("shader has been released".to_owned()));
        }
        if self.source_is_submittable() {
            None
        } else {
            self.m_state = CompileState::Failed;
            Some(ShaderCompile::Failed("shader source holds a NUL byte".to_owned()))
        }
    }

    /// Records what the driver reported for the compile: `status` is its
    /// compile status, `log` its info log. Success exactly when the status is
    /// `GL_TRUE`; otherwise the failure carries the log, or a fixed message
    /// when the log is empty, never an empty message.
    pub fn finish_compile(&mut self, status: i32, log: String) -> (r: ShaderCompile)
        ensures
            r is Success <==> status == GL_TRUE,
            r is Failed ==> r->Failed_0@ == diagnostic(log@, compile_fallback())
                && r->Failed_0@.len() > 0,
            final(self).spec_released() == old(self).spec_released(),
            final(self).spec_id() == old(self).spec_id(),
            final(self).spec_source() == old(self).spec_source(),
            final(self).spec_type() == old(self).spec_type(),
            final(self).spec_state() == (if status == GL_TRUE {
                CompileState::Compiled
            } else {
                CompileState::Failed
            }),
    {
        if status == GL_TRUE {
            self.m_state = CompileState::Compiled;
            ShaderCompile::Success
        } else {
            self.m_state = CompileState::Failed;
            proof {
                reveal_strlit("shader compilation failed");
            }
            ShaderCompile::Failed(diagnostic_or(log, "shader compilation failed"))
        }
    }
}

/// The handle of `s` if it was not released on its own, else nothing.
pub open spec fn live_id(s: Shader) -> Seq<u32> {
    if s.spec_released() {
        Seq::empty()
    } else {
        seq![s.spec_id()]
    }
}

/// Whether `s` compiled and still holds its handle, ready to be linked.
pub open spec fn stage_ready(s: Shader) -> bool {
    s.spec_state() == CompileState::Compiled && !s.spec_released()
}

fn is_stage_ready(s: &Shader) -> (r: bool)
    ensures
        r == stage_ready(*s),
{
    s.compile_state() == CompileState::Compiled && !s.is_released()
}

fn push_live(ids: &mut Vec<u32>, s: &Shader)
    ensures
        final(ids)@ == old(ids)@ + live_id(*s),
{
    if !s.is_released() {
        ids.push(s.get_id());
    } else {
        assert(old(ids)@ + live_id(*s) =~= old(ids)@);
    }
}

/// The handles that releasing a program hands back, for the driver to delete:
/// the program's own and those of the stages it owns.
pub struct ReleasedHandles {
    pub program: u32,
    pub stages: Vec<u32>,
}

/// A program: a driver handle and the stages it owns, vertex, optional
/// geometry and fragment. It is released at most once.
pub struct ShaderProgram {
    m_id: u32,
    vert: VertexShader,
    geom: Option<GeometryShader>,
    frag: FragmentShader,
    m_state: LinkState,
    m_released: bool,
}

impl ShaderProgram {
    pub closed spec fn spec_id(&self) -> u32 {
        self.m_id
    }

    pub closed spec fn spec_state(&self) -> LinkState {
        self.m_state
    }

    pub closed spec fn spec_released(&self) -> bool {
        self.m_released
    }

    pub closed spec fn spec_has_geometry(&self) -> bool {
        self.geom is Some
    }

    /// Handles of the owned stages, in attach order: vertex, geometry if
    /// present, fragment.
    pub closed spec fn spec_stage_ids(&self) -> Seq<u32> {
        match self.geom {
            Some(g) => seq![self.vert.spec_id(), g.spec_id(), self.frag.spec_id()],
            None => seq![self.vert.spec_id(), self.frag.spec_id()],
        }
    }

    /// Handles of the owned stages that were not released on their own, in
    /// attach order: those that releasing the program hands back.
    pub closed spec fn spec_release_stage_ids(&self) -> Seq<u32> {
        match self.geom {
            Some(g) => live_id(self.vert) + live_id(g) + live_id(self.frag),
            None => live_id(self.vert) + live_id(self.frag),
        }
    }

    /// Whether every owned stage compiled and still holds its handle.
    pub closed spec fn spec_stages_compiled(&self) -> bool {
        &&& stage_ready(self.vert)
        &&& stage_ready(self.frag)
        &&& (self.geom matches Some(g) ==> stage_ready(g))
    }

    /// The same program after it has been released.
    pub closed spec fn spec_after_release(self) -> ShaderProgram {
        ShaderProgram { m_released: true, ..self }
    }

    /// What a release hands back: the handles the first time, nothing after.
    pub open spec fn spec_release_result(&self) -> Option<(u32, Seq<u32>)> {
        if self.spec_released() {
            None
        } else {
            Some((self.spec_id(), self.spec_release_stage_ids()))
        }
    }

    /// A program for the driver handle `id` owning a vertex and a fragment stage.
    pub fn new(id: u32, vertex_shader: VertexShader, fragment_shader: FragmentShader) -> (r:
        ShaderProgram)
        ensures
            r.spec_id() == id,
            !r.spec_has_geometry(),
            r.spec_stage_ids() == seq![vertex_shader.spec_id(), fragment_shader.spec_id()],
            r.spec_release_stage_ids() == live_id(vertex_shader) + live_id(fragment_shader),
            r.spec_stages_compiled() == (stage_ready(vertex_shader) && stage_ready(
                fragment_shader,
            )),
            r.spec_state() == LinkState::NotLinked,
            !r.spec_released(),
    {
        ShaderProgram {
            m_id: id,
            vert: vertex_shader,
            geom: None,
            frag: fragment_shader,
            m_state: LinkState::NotLinked,
            m_released: false,
        }
    }

    /// A program for the driver handle `id` owning a vertex, a geometry and a
    /// fragment stage.
    pub fn new_with_geometry(
        id: u32,
        vertex_shader: VertexShader,
        geometry_shader: GeometryShader,
        fragment_shader: FragmentShader,
    ) -> (r: ShaderProgram)
        ensures
            r.spec_id() == id,
            r.spec_has_geometry(),
            r.spec_stage_ids() == seq![
                vertex_shader.spec_id(),
                geometry_shader.spec_id(),
                fragment_shader.spec_id(),
            ],
            r.spec_release_stage_ids() == live_id(vertex_shader) + live_id(geometry_shader)
                + live_id(fragment_shader),
            r.spec_stages_compiled() == (stage_ready(vertex_shader) && stage_ready(
                geometry_shader,
            ) && stage_ready(fragment_shader)),
            r.spec_state() == LinkState::NotLinked,
            !r.spec_released(),
    {
        ShaderProgram {
            m_id: id,
            vert: vertex_shader,
            geom: Some(geometry_shader),
            frag: fragment_shader,
            m_state: LinkState::NotLinked,
            m_released: false,
        }
    }

    pub fn get_id(&self) -> (r: u32)
        ensures
            r == self.spec_id(),
    {
        self.m_id
    }

    pub fn has_geometry_shader(&self) -> (r: bool)
        ensures
            r == self.spec_has_geometry(),
    {
        self.geom.is_some()
    }

    pub fn link_state(&self) -> (r: LinkState)
        ensures
            r == self.spec_state(),
    {
        self.m_state
    }

    pub fn is_released(&self) -> (r: bool)
        ensures
            r == self.spec_released(),
    {
        self.m_released
    }

    /// Handles of the owned stages, in the order they are attached.
    pub fn attached_stage_ids(&self) -> (r: Vec<u32>)
        ensures
            r@ == self.spec_stage_ids(),
    {
        let mut ids: Vec<u32> = Vec::new();
        ids.push(self.vert.get_id());
        if let Some(g) = &self.geom {
            ids.push(g.get_id());
        }
        ids.push(self.frag.get_id());
        ids
    }

    /// The step before the driver links: a released program, or one with a
    /// stage that did not compile, fails here with a message and is marked
    /// failed; otherwise `None`, the program unchanged, and the driver goes on.
    pub fn begin_link(&mut self) -> (r: Option<ShaderLink>)
        ensures
            r is None <==> !old(self).spec_released() && old(self).spec_stages_compiled(),
            r is Some ==> r->Some_0 is Failed && r->Some_0->Failed_0@.len() > 0,
            same_program(*final(self), *old(self)),
            final(self).spec_released() == old(self).spec_released(),
            final(self).spec_state() == (if r is None {
                old(self).spec_state()
            } else {
                LinkState::Failed
            }),
    {
        if self.m_released {
            self.m_state = LinkState::Failed;
            proof {
                reveal_strlit("program has been released");
            }
            return Some(ShaderLink::Failed("program has been released".to_owned()));
        }
        let ready = is_stage_ready(&self.vert) && is_stage_ready(&self.frag) && match &self.geom {
            Some(g) => is_stage_ready(g),
            None => true,
        };
        if ready {
            None
        } else {
            self.m_state = LinkState::Failed;
            proof {
                reveal_strlit("a stage of the program did not compile");
            }
            Some(ShaderLink::Failed("a stage of the program did not compile".to_owned()))
        }
    }

    /// Records what the driver reported for the link: `status` is its link
    /// status, `log` its info log. Success exactly when the status is
    /// `GL_TRUE`; otherwise the failure carries the log, or a fixed message
    /// when the log is empty. The same inputs always give the same outcome.
    pub fn finish_link(&mut self, status: i32, log: String) -> (r: ShaderLink)
        ensures
            r is Success <==> status == GL_TRUE,
            r is Failed ==> r->Failed_0@ == diagnostic(log@, link_fallback())
                && r->Failed_0@.len() > 0,
            same_program(*final(self), *old(self)),
            final(self).spec_released() == old(self).spec_released(),
            final(self).spec_state() == (if status == GL_TRUE {
                LinkState::Linked
            } else {
                LinkState::Failed
            }),
    {
        if status == GL_TRUE {
            self.m_state = LinkState::Linked;
            ShaderLink::Success
        } else {
            self.m_state = LinkState::Failed;
            proof {
                reveal_strlit("program link failed");
            }
            ShaderLink::Failed(diagnostic_or(log, "program link failed"))
        }
    }

    /// The handle of a program that linked and has not been released.
    pub open spec fn spec_usable_handle(&self) -> Option<u32> {
        if self.spec_state() == LinkState::Linked && !self.spec_released() {
            Some(self.spec_id())
        } else {
            None
        }
    }

    /// The handle to make current for draw calls and uniforms: only a program
    /// that linked and has not been released has one.
    pub fn active_handle(&self) -> (r: Option<u32>)
        ensures
            r == self.spec_usable_handle(),
    {
        if self.m_state == LinkState::Linked && !self.m_released {
            Some(self.m_id)
        } else {
            None
        }
    }

    /// Releases the program: the first call hands back its handle and those of
    /// its stages, whether or not it ever linked; every later call hands back
    /// nothing.
    pub fn release(&mut self) -> (r: Option<ReleasedHandles>)
        ensures
            *final(self) == old(self).spec_after_release(),
            final(self).spec_released(),
            same_program(*final(self), *old(self)),
            final(self).spec_state() == old(self).spec_state(),
            r is Some <==> !old(self).spec_released(),
            r is Some ==> r->Some_0.program == old(self).spec_id()
                && r->Some_0.stages@ == old(self).spec_release_stage_ids(),
    {
        if self.m_released {
            None
        } else {
            self.m_released = true;
            let mut stages: Vec<u32> = Vec::new();
            push_live(&mut stages, &self.vert);
            if let Some(g) = &self.geom {
                push_live(&mut stages, g);
            }
            push_live(&mut stages, &self.frag);
            assert(stages@ =~= self.spec_release_stage_ids());
            Some(ReleasedHandles { program: self.m_id, stages })
        }
    }
}

/// `a` and `b` are the same program with the same stages, whatever their
/// link states and released flags.
pub open spec fn same_program(a: ShaderProgram, b: ShaderProgram) -> bool {
    &&& a.spec_id() == b.spec_id()
    &&& a.spec_has_geometry() == b.spec_has_geometry()
    &&& a.spec_stage_ids() == b.spec_stage_ids()
    &&& a.spec_release_stage_ids() == b.spec_release_stage_ids()
    &&& a.spec_stages_compiled() == b.spec_stages_compiled()
}

/// How many of `n` successive releases of `p` hand back handles.
pub open spec fn releases_in(p: ShaderProgram, n: nat) -> nat
    decreases n,
{
    if n == 0 {
        0
    } else {
        (if p.spec_release_result() is Some {
            1nat
        } else {
            0nat
        }) + releases_in(p.spec_after_release(), (n - 1) as nat)
    }
}

proof fn lemma_no_release_after_release(p: ShaderProgram, n: nat)
    requires
        p.spec_released(),
    ensures
        releases_in(p, n) == 0,
    decreases n,
{
    if n > 0 {
        assert(p.spec_after_release() == p);
        lemma_no_release_after_release(p, (n - 1) as nat);
    }
}

/// A program that has not been released, linked or not, hands back its
/// handles on exactly one of any number (at least one) of successive
/// releases: the first, with its own handle and those of its stages that
/// were not released on their own. The link state plays no part.
pub proof fn lemma_release_exactly_once(p: ShaderProgram, n: nat)
    requires
        !p.spec_released(),
        n >= 1,
    ensures
        p.spec_release_result() == Some((p.spec_id(), p.spec_release_stage_ids())),
        p.spec_after_release().spec_released(),
        same_program(p.spec_after_release(), p),
        p.spec_after_release().spec_state() == p.spec_state(),
        p.spec_after_release().spec_release_result() is None,
        releases_in(p, n) == 1,
{
    let q = p.spec_after_release();
    assert(q.spec_released());
    lemma_no_release_after_release(q, (n - 1) as nat);
}

} // verus!
