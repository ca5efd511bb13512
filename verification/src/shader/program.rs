//! Linked shader programs and the named inputs they expose.

use vstd::prelude::*;
use crate::attribute::Attribute;
use crate::command::Command;
use crate::shader::error::ShaderError;
use crate::shader::shader::{Fragment, Shader, Vertex};
use crate::text::{first_nul, same_text, spec_has_nul};

verus! {

/// A name that a linked program exposes, with the location the backend gave
/// it. A negative location means that the backend has no slot for the name.
#[derive(Clone, Debug, PartialEq, Eq)]
pub struct NamedLocation {
    pub name: String,
    pub location: i32,
}

/// What the backend answers when asked for the location of `name`, given the
/// names it reported in `table`: the location of the first entry of that
/// name, and -1 when there is none.
pub open spec fn spec_location(table: Seq<NamedLocation>, name: Seq<char>) -> int
    decreases table.len(),
{
    if table.len() == 0 {
        -1
    } else if table[0].name@ == name {
        table[0].location as int
    } else {
        spec_location(table.drop_first(), name)
    }
}

/// The slot that `name` resolves to in `table`, if it resolves: the name must
/// be free of the character with code zero, and its location must not be
/// negative.
pub open spec fn spec_resolve(table: Seq<NamedLocation>, name: Seq<char>) -> Option<int> {
    if spec_has_nul(name) || spec_location(table, name) < 0 {
        None
    } else {
        Some(spec_location(table, name))
    }
}

/// Looks `name` up in `table`.
pub fn resolve(table: &Vec<NamedLocation>, name: &str) -> (slot: Option<i32>)
    ensures
        match slot {
            Some(location) => spec_resolve(table@, name@) == Some(location as int),
            None => spec_resolve(table@, name@) is None,
        },
{
    if first_nul(name).is_some() {
        return None;
    }
    let mut i: usize = 0;
    assert(table@.skip(0) =~= table@);
    while i < table.len()
        invariant
            i <= table.len(),
            !spec_has_nul(name@),
            spec_location(table@, name@) == spec_location(table@.skip(i as int), name@),
        decreases table.len() - i,
    {
        proof {
            assert(table@.skip(i as int).drop_first() =~= table@.skip(i as int + 1));
        }
        if same_text(table[i].name.as_str(), name) {
            let location: i32 = table[i].location;
            return if location < 0 {
                None
            } else {
                Some(location)
            };
        }
        i += 1;
    }
    None
}

/// What the backend reports after it was asked to link a program.
pub struct LinkReport {
    /// The name of the program object.
    pub program: u32,
    /// Whether linking succeeded.
    pub linked: bool,
    /// The backend's diagnostic log.
    pub log: String,
    /// The vertex inputs of the linked program.
    pub attributes: Vec<NamedLocation>,
    /// The uniforms of the linked program.
    pub uniforms: Vec<NamedLocation>,
}

/// The mathematical content of a [`Program`].
pub struct ProgramView {
    /// The name of the program object.
    pub id: u32,
    /// The vertex inputs the program exposes.
    pub attributes: Seq<NamedLocation>,
    /// The uniforms the program exposes.
    pub uniforms: Seq<NamedLocation>,
}

/// A linked shader program.
pub struct Program {
    id: u32,
    attributes: Vec<NamedLocation>,
    uniforms: Vec<NamedLocation>,
}

impl View for Program {
    type V = ProgramView;

    closed spec fn view(&self) -> ProgramView {
        ProgramView { id: self.id, attributes: self.attributes@, uniforms: self.uniforms@ }
    }
}

impl Program {
    /// Decides what came of linking a vertex and a fragment shader: the
    /// program with the inputs it exposes, or the backend's log as a linking
    /// error.
    pub fn new(
        vertex_shader: Shader<Vertex>,
        fragment_shader: Shader<Fragment>,
        report: LinkReport,
    ) -> (program: Result<Self, ShaderError>)
        ensures
            report.linked ==> program is Ok && program->Ok_0@ == (ProgramView {
                id: report.program,
                attributes: report.attributes@,
                uniforms: report.uniforms@,
            }),
            !report.linked ==> program == Err::<Self, ShaderError>(
                ShaderError::LinkingError(report.log),
            ),
    {
        if !report.linked {
            return Err(ShaderError::LinkingError(report.log));
        }
        Ok(Self { id: report.program, attributes: report.attributes, uniforms: report.uniforms })
    }

    /// The vertex input called `position`, if the program exposes one.
    pub fn get_attribute(&self, position: &str) -> (attribute: Option<Attribute>)
        ensures
            match attribute {
                Some(attribute) => spec_resolve(self@.attributes, position@) == Some(
                    attribute@ as int,
                ),
                None => spec_resolve(self@.attributes, position@) is None,
            },
    {
        match resolve(&self.attributes, position) {
            Some(location) => Some(Attribute::at_pos(location as u32)),
            None => None,
        }
    }

    /// The location of the uniform called `name`, if the program exposes one.
    pub fn get_uniform(&self, name: &str) -> (location: Option<i32>)
        ensures
            match location {
                Some(location) => spec_resolve(self@.uniforms, name@) == Some(location as int),
                None => spec_resolve(self@.uniforms, name@) is None,
            },
    {
        resolve(&self.uniforms, name)
    }

    /// Makes this the current program.
    pub fn use_internal(&self, calls: &mut Vec<Command>)
        ensures
            final(calls)@ == old(calls)@.push(Command::UseProgram { program: self@.id }),
    {
        calls.push(Command::UseProgram { program: self.id });
    }

    /// The name of the program object.
    pub fn id(&self) -> (name: u32)
        ensures
            name == self@.id,
    {
        self.id
    }
}

} // verus!
