//! Buffers, shader stages, bindings and render commands, and the dispatch of
//! a scene's command lists.
use vstd::prelude::*;
use crate::device::{
    apply_calls, GL_COLOR_BUFFER_BIT, GL_DYNAMIC_DRAW, GL_ELEMENT_ARRAY_BUFFER, GL_STATIC_DRAW,
    GL_STREAM_DRAW, lemma_apply_calls_concat, DeviceCall, DeviceModel, GL_ARRAY_BUFFER, GL_LINES, GL_LINE_LOOP, GL_LINE_STRIP, GL_POINTS, GL_TRIANGLES,
    GL_TRIANGLE_FAN, GL_TRIANGLE_STRIP,
};
use crate::error::RenderError;

verus! {

#[derive(Clone, Copy, Debug, PartialEq, Eq, Structural)]
pub enum PrimitivesType {
    Points,
    LineStrip,
    LineLoop,
    Lines,
    TriangleStrip,
    TriangleFan,
    Triangles,
}

/// The driver's draw mode for a primitive type.
pub open spec fn primitive_mode(p: PrimitivesType) -> u32 {
    match p {
        PrimitivesType::Points => GL_POINTS,
        PrimitivesType::LineStrip => GL_LINE_STRIP,
        PrimitivesType::LineLoop => GL_LINE_LOOP,
        PrimitivesType::Lines => GL_LINES,
        PrimitivesType::TriangleStrip => GL_TRIANGLE_STRIP,
        PrimitivesType::TriangleFan => GL_TRIANGLE_FAN,
        PrimitivesType::Triangles => GL_TRIANGLES,
    }
}

pub fn ToGL(vit: &PrimitivesType) -> (r: u32)
    ensures
        r == primitive_mode(*vit),
{
    match *vit {
        PrimitivesType::Points => GL_POINTS,
        PrimitivesType::LineStrip => GL_LINE_STRIP,
        PrimitivesType::LineLoop => GL_LINE_LOOP,
        PrimitivesType::Lines => GL_LINES,
        PrimitivesType::TriangleStrip => GL_TRIANGLE_STRIP,
        PrimitivesType::TriangleFan => GL_TRIANGLE_FAN,
        PrimitivesType::Triangles => GL_TRIANGLES,
    }
}

////////////////////////////////////
// Bindings

/// A shader input location fed from a device buffer.
#[derive(Debug)]
pub struct AttributeBinding {
    attributeHndl: u32,
    dataBufferHndl: u32,
    numComponents: u32,
}

impl AttributeBinding {
    #[verifier::type_invariant]
    spec fn inv(&self) -> bool {
        self.numComponents >= 1
    }

    /// The attribute location.
    pub closed spec fn location(&self) -> u32 {
        self.attributeHndl
    }

    /// The buffer the attribute reads from.
    pub closed spec fn buffer(&self) -> u32 {
        self.dataBufferHndl
    }

    /// Float components per vertex.
    pub closed spec fn components(&self) -> u32 {
        self.numComponents
    }
}

/// A uniform payload, integer-typed or float-typed; floats are held as
/// their bit patterns.
#[derive(Clone, Debug)]
pub enum UniformTypedData {
    Integer(Vec<i32>),
    Float(Vec<u32>),
}

/// The number of values in a payload.
pub open spec fn payload_len(d: UniformTypedData) -> nat {
    match d {
        UniformTypedData::Integer(v) => v@.len(),
        UniformTypedData::Float(v) => v@.len(),
    }
}

/// A shader uniform location set to a fixed payload of one to four values.
#[derive(Debug)]
pub struct UniformBinding {
    handle: i32,
    data: UniformTypedData,
}

impl UniformBinding {
    #[verifier::type_invariant]
    spec fn inv(&self) -> bool {
        &&& 0 <= self.handle
        &&& 1 <= payload_len(self.data) <= 4
    }

    /// The uniform location.
    pub closed spec fn location(&self) -> i32 {
        self.handle
    }

    /// The payload.
    pub closed spec fn payload(&self) -> UniformTypedData {
        self.data
    }
}

/// The arity-specific call that sets a uniform to a payload.
pub open spec fn uniform_call(location: i32, d: UniformTypedData) -> DeviceCall {
    match d {
        UniformTypedData::Integer(v) => if v@.len() == 1 {
            DeviceCall::Uniform1i { location, x: v@[0] }
        } else if v@.len() == 2 {
            DeviceCall::Uniform2i { location, x: v@[0], y: v@[1] }
        } else if v@.len() == 3 {
            DeviceCall::Uniform3i { location, x: v@[0], y: v@[1], z: v@[2] }
        } else {
            DeviceCall::Uniform4i { location, x: v@[0], y: v@[1], z: v@[2], w: v@[3] }
        },
        UniformTypedData::Float(v) => if v@.len() == 1 {
            DeviceCall::Uniform1f { location, x: v@[0] }
        } else if v@.len() == 2 {
            DeviceCall::Uniform2f { location, x: v@[0], y: v@[1] }
        } else if v@.len() == 3 {
            DeviceCall::Uniform3f { location, x: v@[0], y: v@[1], z: v@[2] }
        } else {
            DeviceCall::Uniform4f { location, x: v@[0], y: v@[1], z: v@[2], w: v@[3] }
        },
    }
}

/// A payload of one, two, three or four values is set by the call of
/// exactly that arity and of the payload's type.
pub proof fn lemma_uniform_call_arity(location: i32, d: UniformTypedData)
    requires
        1 <= payload_len(d) <= 4,
    ensures
        d is Integer && payload_len(d) == 1 <==> uniform_call(location, d) is Uniform1i,
        d is Integer && payload_len(d) == 2 <==> uniform_call(location, d) is Uniform2i,
        d is Integer && payload_len(d) == 3 <==> uniform_call(location, d) is Uniform3i,
        d is Integer && payload_len(d) == 4 <==> uniform_call(location, d) is Uniform4i,
        d is Float && payload_len(d) == 1 <==> uniform_call(location, d) is Uniform1f,
        d is Float && payload_len(d) == 2 <==> uniform_call(location, d) is Uniform2f,
        d is Float && payload_len(d) == 3 <==> uniform_call(location, d) is Uniform3f,
        d is Float && payload_len(d) == 4 <==> uniform_call(location, d) is Uniform4f,
{
}

////////////////////////////////////
// Render Command

/// The calls that bind one attribute: enable its array, bind its buffer as
/// the array buffer, describe its layout.
pub open spec fn attribute_bind_calls(a: AttributeBinding) -> Seq<DeviceCall> {
    seq![
        DeviceCall::EnableVertexAttribArray { location: a.location() },
        DeviceCall::BindBuffer { target: GL_ARRAY_BUFFER, buffer: a.buffer() },
        DeviceCall::VertexAttribPointer { location: a.location(), components: a.components() },
    ]
}

/// The bind calls of a list of attribute bindings, in list order.
pub open spec fn attribute_binds(attrs: Seq<AttributeBinding>) -> Seq<DeviceCall>
    decreases attrs.len(),
{
    if attrs.len() == 0 {
        seq![]
    } else {
        attribute_binds(attrs.drop_last()) + attribute_bind_calls(attrs.last())
    }
}

/// The set calls of a list of uniform bindings, in list order.
pub open spec fn uniform_binds(unis: Seq<UniformBinding>) -> Seq<DeviceCall> {
    unis.map_values(|u: UniformBinding| uniform_call(u.location(), u.payload()))
}

/// The unbind calls: disable each attribute array in list order, then
/// unbind the array buffer.
pub open spec fn attribute_unbinds(attrs: Seq<AttributeBinding>) -> Seq<DeviceCall> {
    attrs.map_values(
        |a: AttributeBinding| DeviceCall::DisableVertexAttribArray { location: a.location() },
    ) + seq![DeviceCall::BindBuffer { target: GL_ARRAY_BUFFER, buffer: 0 }]
}

pub struct RenderCommand {
    attributeBindings: Vec<AttributeBinding>,
    uniformBindings: Vec<UniformBinding>,
    primitiveType: PrimitivesType,
    numVertices: u32,
}

impl RenderCommand {
    pub closed spec fn attributes(&self) -> Seq<AttributeBinding> {
        self.attributeBindings@
    }

    pub closed spec fn uniforms(&self) -> Seq<UniformBinding> {
        self.uniformBindings@
    }

    pub closed spec fn primitive(&self) -> PrimitivesType {
        self.primitiveType
    }

    pub closed spec fn vertex_count(&self) -> u32 {
        self.numVertices
    }

    /// The bind phase: every attribute binding, then every uniform binding.
    pub open spec fn bind_calls(&self) -> Seq<DeviceCall> {
        attribute_binds(self.attributes()) + uniform_binds(self.uniforms())
    }

    /// The draw phase: one draw of all the command's vertices.
    pub open spec fn draw_call(&self) -> DeviceCall {
        DeviceCall::DrawArrays {
            mode: primitive_mode(self.primitive()),
            first: 0,
            count: self.vertex_count(),
        }
    }

    /// Everything one execution issues: bind, draw, unbind.
    pub open spec fn calls(&self) -> Seq<DeviceCall> {
        self.bind_calls() + seq![self.draw_call()] + attribute_unbinds(self.attributes())
    }

    pub fn new(
        attributeBindings: Vec<AttributeBinding>,
        uniformBindings: Vec<UniformBinding>,
        primitiveType: PrimitivesType,
        numVertices: u32,
    ) -> (r: RenderCommand)
        ensures
            r.attributes() == attributeBindings@,
            r.uniforms() == uniformBindings@,
            r.primitive() == primitiveType,
            r.vertex_count() == numVertices,
    {
        RenderCommand { attributeBindings, uniformBindings, primitiveType, numVertices }
    }

    /// Runs the bind / draw / unbind protocol, appending its calls.
    pub fn Execute(&self, calls: &mut Vec<DeviceCall>)
        ensures
            final(calls)@ == old(calls)@ + self.calls(),
    {
        self.Bind(calls);
        self.Draw(calls);
        self.Unbind(calls);
        assert(final(calls)@ =~= old(calls)@ + self.calls());
    }

    fn Bind(&self, calls: &mut Vec<DeviceCall>)
        ensures
            final(calls)@ == old(calls)@ + self.bind_calls(),
    {
        let ghost start = calls@;
        let mut i: usize = 0;
        while i < self.attributeBindings.len()
            invariant
                i <= self.attributeBindings@.len(),
                calls@ == start + attribute_binds(self.attributeBindings@.take(i as int)),
            decreases self.attributeBindings@.len() - i,
        {
            let binding = &self.attributeBindings[i];
            proof {
                use_type_invariant(binding);
            }
            calls.push(DeviceCall::EnableVertexAttribArray { location: binding.attributeHndl });
            calls.push(
                DeviceCall::BindBuffer { target: GL_ARRAY_BUFFER, buffer: binding.dataBufferHndl },
            );
            calls.push(
                DeviceCall::VertexAttribPointer {
                    location: binding.attributeHndl,
                    components: binding.numComponents,
                },
            );
            proof {
                let s = self.attributeBindings@;
                assert(s.take(i + 1).drop_last() =~= s.take(i as int));
                assert(s.take(i + 1).last() == s[i as int]);
            }
            i = i + 1;
        }
        assert(self.attributeBindings@.take(i as int) =~= self.attributeBindings@);
        let ghost mid = calls@;
        let mut j: usize = 0;
        while j < self.uniformBindings.len()
            invariant
                j <= self.uniformBindings@.len(),
                calls@ == mid + uniform_binds(self.uniformBindings@.take(j as int)),
            decreases self.uniformBindings@.len() - j,
        {
            let binding = &self.uniformBindings[j];
            proof {
                use_type_invariant(binding);
            }
            match &binding.data {
                UniformTypedData::Integer(intVec) => {
                    let _ = Self::BindIntegers(binding.handle, intVec, calls);
                },
                UniformTypedData::Float(floatVec) => {
                    let _ = Self::BindFloats(binding.handle, floatVec, calls);
                },
            }
            proof {
                let s = self.uniformBindings@;
                assert(uniform_binds(s.take(j + 1)) =~= uniform_binds(s.take(j as int)).push(
                    uniform_call(s[j as int].location(), s[j as int].payload()),
                ));
            }
            j = j + 1;
        }
        assert(self.uniformBindings@.take(j as int) =~= self.uniformBindings@);
        assert(calls@ =~= start + self.bind_calls());
    }

    /// Sets the uniform at `uniformHndl` to an integer payload by the call of
    /// the payload's arity; a payload of no values or of more than four is
    /// refused and nothing is issued.
    pub fn BindIntegers(uniformHndl: i32, data: &Vec<i32>, calls: &mut Vec<DeviceCall>) -> (r: Result<
        (),
        RenderError,
    >)
        ensures
            !(1 <= data@.len() <= 4) ==> r == Err::<(), RenderError>(RenderError::InvalidArity)
                && final(calls)@ == old(calls)@,
            1 <= data@.len() <= 4 ==> r == Ok::<(), RenderError>(()) && final(calls)@ == old(
                calls,
            )@.push(uniform_call(uniformHndl, UniformTypedData::Integer(*data))),
    {
        let call = match data.len() {
            1 => DeviceCall::Uniform1i { location: uniformHndl, x: data[0] },
            2 => DeviceCall::Uniform2i { location: uniformHndl, x: data[0], y: data[1] },
            3 => DeviceCall::Uniform3i { location: uniformHndl, x: data[0], y: data[1], z: data[2] },
            4 => DeviceCall::Uniform4i {
                location: uniformHndl,
                x: data[0],
                y: data[1],
                z: data[2],
                w: data[3],
            },
            _ => return Err(RenderError::InvalidArity),
        };
        calls.push(call);
        Ok(())
    }

    /// Sets the uniform at `uniformHndl` to a float (bit patterns) payload by the call of
    /// the payload's arity; a payload of no values or of more than four is
    /// refused and nothing is issued.
    pub fn BindFloats(uniformHndl: i32, data: &Vec<u32>, calls: &mut Vec<DeviceCall>) -> (r: Result<
        (),
        RenderError,
    >)
        ensures
            !(1 <= data@.len() <= 4) ==> r == Err::<(), RenderError>(RenderError::InvalidArity)
                && final(calls)@ == old(calls)@,
            1 <= data@.len() <= 4 ==> r == Ok::<(), RenderError>(()) && final(calls)@ == old(
                calls,
            )@.push(uniform_call(uniformHndl, UniformTypedData::Float(*data))),
    {
        let call = match data.len() {
            1 => DeviceCall::Uniform1f { location: uniformHndl, x: data[0] },
            2 => DeviceCall::Uniform2f { location: uniformHndl, x: data[0], y: data[1] },
            3 => DeviceCall::Uniform3f { location: uniformHndl, x: data[0], y: data[1], z: data[2] },
            4 => DeviceCall::Uniform4f {
                location: uniformHndl,
                x: data[0],
                y: data[1],
                z: data[2],
                w: data[3],
            },
            _ => return Err(RenderError::InvalidArity),
        };
        calls.push(call);
        Ok(())
    }

    fn Draw(&self, calls: &mut Vec<DeviceCall>)
        ensures
            final(calls)@ == old(calls)@.push(self.draw_call()),
    {
        calls.push(
            DeviceCall::DrawArrays {
                mode: ToGL(&self.primitiveType),
                first: 0,
                count: self.numVertices,
            },
        );
    }

    fn Unbind(&self, calls: &mut Vec<DeviceCall>)
        ensures
            final(calls)@ == old(calls)@ + attribute_unbinds(self.attributes()),
    {
        let ghost start = calls@;
        let ghost disable = |a: AttributeBinding|
            DeviceCall::DisableVertexAttribArray { location: a.location() };
        let mut i: usize = 0;
        while i < self.attributeBindings.len()
            invariant
                i <= self.attributeBindings@.len(),
                disable == (|a: AttributeBinding|
                    DeviceCall::DisableVertexAttribArray { location: a.location() }),
                calls@ == start + self.attributeBindings@.take(i as int).map_values(disable),
            decreases self.attributeBindings@.len() - i,
        {
            calls.push(
                DeviceCall::DisableVertexAttribArray {
                    location: self.attributeBindings[i].attributeHndl,
                },
            );
            proof {
                let s = self.attributeBindings@;
                assert(s.take(i + 1).map_values(disable) =~= s.take(i as int).map_values(
                    disable,
                ).push(disable(s[i as int])));
            }
            i = i + 1;
        }
        assert(self.attributeBindings@.take(i as int) =~= self.attributeBindings@);
        calls.push(DeviceCall::BindBuffer { target: GL_ARRAY_BUFFER, buffer: 0 });
        assert(calls@ =~= start + attribute_unbinds(self.attributes()));
    }
}


////////////////////////////////////
// GPUBuffer

#[derive(Clone, Copy, Debug, PartialEq, Eq, Structural)]
pub enum GPUBufferTarget {
    Array,
    ElementArray,
}

#[derive(Clone, Copy, Debug, PartialEq, Eq, Structural)]
pub enum GPUBufferUsage {
    Stream,
    Static,
    Dynamic,
}

pub open spec fn target_enum(t: GPUBufferTarget) -> u32 {
    match t {
        GPUBufferTarget::Array => GL_ARRAY_BUFFER,
        GPUBufferTarget::ElementArray => GL_ELEMENT_ARRAY_BUFFER,
    }
}

pub open spec fn usage_enum(u: GPUBufferUsage) -> u32 {
    match u {
        GPUBufferUsage::Stream => GL_STREAM_DRAW,
        GPUBufferUsage::Static => GL_STATIC_DRAW,
        GPUBufferUsage::Dynamic => GL_DYNAMIC_DRAW,
    }
}

/// A device buffer, written once at creation.
#[derive(Debug)]
pub struct GPUBuffer {
    pub handle: u32,
    pub target: GPUBufferTarget,
    pub usage: GPUBufferUsage,
}

impl GPUBuffer {
    /// Fills the buffer object `handle`, freshly generated by the driver,
    /// with `cpuData`: binds it to the target and uploads the bytes.
    pub fn new(
        handle: u32,
        cpuData: Vec<u8>,
        target: GPUBufferTarget,
        usage: GPUBufferUsage,
        calls: &mut Vec<DeviceCall>,
    ) -> (r: GPUBuffer)
        ensures
            r.handle == handle,
            r.target == target,
            r.usage == usage,
            final(calls)@.len() == old(calls)@.len() + 2,
            final(calls)@.take(old(calls)@.len() as int) == old(calls)@,
            final(calls)@[old(calls)@.len() as int] == (DeviceCall::BindBuffer {
                target: target_enum(target),
                buffer: handle,
            }),
            final(calls)@[old(calls)@.len() + 1int] matches DeviceCall::BufferData {
                target: t,
                bytes: b,
                usage: u,
            } && t == target_enum(target) && b@ == cpuData@ && u == usage_enum(usage),
    {
        let glTarget = TargetToGL(&target);
        calls.push(DeviceCall::BindBuffer { target: glTarget, buffer: handle });
        calls.push(DeviceCall::BufferData { target: glTarget, bytes: cpuData, usage: UsageToGL(&usage) });
        assert(final(calls)@.take(old(calls)@.len() as int) =~= old(calls)@);
        GPUBuffer { handle, target, usage }
    }
}

fn TargetToGL(vit: &GPUBufferTarget) -> (r: u32)
    ensures
        r == target_enum(*vit),
{
    match *vit {
        GPUBufferTarget::Array => GL_ARRAY_BUFFER,
        GPUBufferTarget::ElementArray => GL_ELEMENT_ARRAY_BUFFER,
    }
}

fn UsageToGL(vit: &GPUBufferUsage) -> (r: u32)
    ensures
        r == usage_enum(*vit),
{
    match *vit {
        GPUBufferUsage::Stream => GL_STREAM_DRAW,
        GPUBufferUsage::Static => GL_STATIC_DRAW,
        GPUBufferUsage::Dynamic => GL_DYNAMIC_DRAW,
    }
}

////////////////////////////////////
// ShaderStage

#[derive(Clone, Copy, Debug, PartialEq, Eq, Structural)]
pub struct ShaderProgram(pub u32);

#[derive(Clone, Copy, Debug, PartialEq, Eq, Structural)]
pub struct ShaderCode(pub u32);

/// A linked program with its vertex and fragment shaders.
#[derive(Clone, Copy, Debug, PartialEq, Eq, Structural)]
pub struct ShaderStage {
    pub program: ShaderProgram,
    pub fragShader: ShaderCode,
    pub vertShader: ShaderCode,
}

/// A location that the driver's lookup reported; negative means the name
/// was not found.
#[derive(Clone, Copy, Debug, PartialEq, Eq, Structural)]
pub struct ShaderDataHndl(pub i32);

impl ShaderStage {
    /// Binds the attribute found at `attributeLocation` (the driver's
    /// lookup of its name in this stage's program) to `buffer`, read as
    /// `componentsPerVertex` floats per vertex.
    pub fn BindAttribute(
        &self,
        attributeLocation: ShaderDataHndl,
        buffer: &GPUBuffer,
        componentsPerVertex: u32,
    ) -> (r: Result<AttributeBinding, RenderError>)
        ensures
            attributeLocation.0 < 0 ==> r == Err::<AttributeBinding, RenderError>(
                RenderError::BindingNotFound,
            ),
            attributeLocation.0 >= 0 && componentsPerVertex == 0 ==> r == Err::<
                AttributeBinding,
                RenderError,
            >(RenderError::InvalidArity),
            attributeLocation.0 >= 0 && componentsPerVertex >= 1 ==> (r matches Ok(b)
                && b.location() == attributeLocation.0 as u32 && b.buffer() == buffer.handle
                && b.components() == componentsPerVertex),
    {
        if attributeLocation.0 < 0 {
            return Err(RenderError::BindingNotFound);
        }
        if componentsPerVertex == 0 {
            return Err(RenderError::InvalidArity);
        }
        Ok(
            AttributeBinding {
                attributeHndl: attributeLocation.0 as u32,
                dataBufferHndl: buffer.handle,
                numComponents: componentsPerVertex,
            },
        )
    }

    /// Binds the uniform found at `uniformLocation` to an integer payload.
    pub fn BindUniform(&self, uniformLocation: ShaderDataHndl, uniformData: Vec<i32>) -> (r: Result<
        UniformBinding,
        RenderError,
    >)
        ensures
            uniformLocation.0 < 0 ==> r == Err::<UniformBinding, RenderError>(
                RenderError::BindingNotFound,
            ),
            uniformLocation.0 >= 0 && !(1 <= uniformData@.len() <= 4) ==> r == Err::<
                UniformBinding,
                RenderError,
            >(RenderError::InvalidArity),
            uniformLocation.0 >= 0 && 1 <= uniformData@.len() <= 4 ==> (r matches Ok(b)
                && b.location() == uniformLocation.0 && (b.payload() matches UniformTypedData::Integer(
                v,
            ) && v@ == uniformData@)),
    {
        Self::MakeUniform(uniformLocation, UniformTypedData::Integer(uniformData))
    }

    /// Binds the uniform found at `uniformLocation` to a float payload,
    /// given as bit patterns.
    pub fn BindUniformFloats(&self, uniformLocation: ShaderDataHndl, uniformData: Vec<u32>) -> (r:
        Result<UniformBinding, RenderError>)
        ensures
            uniformLocation.0 < 0 ==> r == Err::<UniformBinding, RenderError>(
                RenderError::BindingNotFound,
            ),
            uniformLocation.0 >= 0 && !(1 <= uniformData@.len() <= 4) ==> r == Err::<
                UniformBinding,
                RenderError,
            >(RenderError::InvalidArity),
            uniformLocation.0 >= 0 && 1 <= uniformData@.len() <= 4 ==> (r matches Ok(b)
                && b.location() == uniformLocation.0 && (b.payload() matches UniformTypedData::Float(v)
                && v@ == uniformData@)),
    {
        Self::MakeUniform(uniformLocation, UniformTypedData::Float(uniformData))
    }

    fn MakeUniform(location: ShaderDataHndl, data: UniformTypedData) -> (r: Result<
        UniformBinding,
        RenderError,
    >)
        ensures
            location.0 < 0 ==> r == Err::<UniformBinding, RenderError>(RenderError::BindingNotFound),
            location.0 >= 0 && !(1 <= payload_len(data) <= 4) ==> r == Err::<
                UniformBinding,
                RenderError,
            >(RenderError::InvalidArity),
            location.0 >= 0 && 1 <= payload_len(data) <= 4 ==> (r matches Ok(b)
                && b.location() == location.0 && b.payload() == data),
    {
        if location.0 < 0 {
            return Err(RenderError::BindingNotFound);
        }
        let n = match &data {
            UniformTypedData::Integer(v) => v.len(),
            UniformTypedData::Float(v) => v.len(),
        };
        if n < 1 || n > 4 {
            return Err(RenderError::InvalidArity);
        }
        Ok(UniformBinding { handle: location.0, data })
    }
}

impl Default for ShaderStage {
    fn default() -> (r: ShaderStage)
        ensures
            r == (ShaderStage {
                program: ShaderProgram(0),
                fragShader: ShaderCode(0),
                vertShader: ShaderCode(0),
            }),
    {
        ShaderStage { program: ShaderProgram(0), fragShader: ShaderCode(0), vertShader: ShaderCode(0) }
    }
}

////////////////////////////////////
// Dispatch

/// The calls of a command list, command after command.
pub open spec fn command_list_calls(cmds: Seq<RenderCommand>) -> Seq<DeviceCall>
    decreases cmds.len(),
{
    if cmds.len() == 0 {
        seq![]
    } else {
        command_list_calls(cmds.drop_last()) + cmds.last().calls()
    }
}

/// The calls of a scene's command lists, list after list.
pub open spec fn dispatch_calls(lists: Seq<Vec<RenderCommand>>) -> Seq<DeviceCall>
    decreases lists.len(),
{
    if lists.len() == 0 {
        seq![]
    } else {
        dispatch_calls(lists.drop_last()) + command_list_calls(lists.last()@)
    }
}

/// Executes the command lists stage by stage, each list in order. The
/// stages and the lists are index-aligned and must be equal in number;
/// otherwise nothing is issued.
pub fn Render(
    shaderStages: &Vec<ShaderStage>,
    commands: &Vec<Vec<RenderCommand>>,
    calls: &mut Vec<DeviceCall>,
) -> (r: Result<(), RenderError>)
    ensures
        shaderStages@.len() != commands@.len() ==> r == Err::<(), RenderError>(
            RenderError::StageCountMismatch,
        ) && final(calls)@ == old(calls)@,
        shaderStages@.len() == commands@.len() ==> r == Ok::<(), RenderError>(()) && final(calls)@
            == old(calls)@ + dispatch_calls(commands@),
{
    if shaderStages.len() != commands.len() {
        return Err(RenderError::StageCountMismatch);
    }
    let ghost start = calls@;
    let mut i: usize = 0;
    while i < shaderStages.len()
        invariant
            i <= commands@.len(),
            shaderStages@.len() == commands@.len(),
            calls@ == start + dispatch_calls(commands@.take(i as int)),
        decreases commands@.len() - i,
    {
        let stageCommands = &commands[i];
        let ghost before = calls@;
        let mut j: usize = 0;
        while j < stageCommands.len()
            invariant
                j <= stageCommands@.len(),
                calls@ == before + command_list_calls(stageCommands@.take(j as int)),
            decreases stageCommands@.len() - j,
        {
            stageCommands[j].Execute(calls);
            proof {
                let s = stageCommands@;
                assert(s.take(j + 1).drop_last() =~= s.take(j as int));
            }
            j = j + 1;
        }
        proof {
            assert(stageCommands@.take(j as int) =~= stageCommands@);
            let s = commands@;
            assert(s.take(i + 1).drop_last() =~= s.take(i as int));
        }
        i = i + 1;
    }
    assert(commands@.take(i as int) =~= commands@);
    Ok(())
}

/// A scene: index-aligned shader stages and command lists, and the clear
/// color as the bit patterns of four floats (red, green, blue, alpha).
pub struct RenderContext {
    pub shaderStages: Vec<ShaderStage>,
    pub clearColor: [u32; 4],
    pub renderCommands: Vec<Vec<RenderCommand>>,
}

impl RenderContext {
    /// The calls that clear the color buffer to the scene's clear color.
    pub open spec fn clear_calls(&self) -> Seq<DeviceCall> {
        seq![
            DeviceCall::ClearColor {
                red: self.clearColor@[0],
                green: self.clearColor@[1],
                blue: self.clearColor@[2],
                alpha: self.clearColor@[3],
            },
            DeviceCall::Clear { mask: GL_COLOR_BUFFER_BIT },
        ]
    }

    /// One frame of the scene: clear to the clear color, then dispatch.
    /// A scene whose stages and command lists differ in number issues
    /// nothing.
    pub fn Frame(&self, calls: &mut Vec<DeviceCall>) -> (r: Result<(), RenderError>)
        ensures
            self.shaderStages@.len() != self.renderCommands@.len() ==> r == Err::<(), RenderError>(
                RenderError::StageCountMismatch,
            ) && final(calls)@ == old(calls)@,
            self.shaderStages@.len() == self.renderCommands@.len() ==> r == Ok::<(), RenderError>(())
                && final(calls)@ == old(calls)@ + self.clear_calls() + dispatch_calls(
                self.renderCommands@,
            ),
    {
        if self.shaderStages.len() != self.renderCommands.len() {
            return Err(RenderError::StageCountMismatch);
        }
        calls.push(
            DeviceCall::ClearColor {
                red: self.clearColor[0],
                green: self.clearColor[1],
                blue: self.clearColor[2],
                alpha: self.clearColor[3],
            },
        );
        calls.push(DeviceCall::Clear { mask: GL_COLOR_BUFFER_BIT });
        let ghost mid = calls@;
        assert(mid =~= old(calls)@ + self.clear_calls());
        let r = Render(&self.shaderStages, &self.renderCommands, calls);
        r
    }
}

/// The disable calls of a list of attribute bindings, in list order.
pub open spec fn attribute_disables(attrs: Seq<AttributeBinding>) -> Seq<DeviceCall> {
    attrs.map_values(
        |a: AttributeBinding| DeviceCall::DisableVertexAttribArray { location: a.location() },
    )
}

proof fn lemma_disables_leave_disabled(m: DeviceModel, attrs: Seq<AttributeBinding>)
    ensures
        forall|i: int|
            0 <= i < attrs.len() ==> !apply_calls(m, attribute_disables(attrs)).enabled.contains(
                #[trigger] attrs[i].location(),
            ),
    decreases attrs.len(),
{
    if attrs.len() > 0 {
        let rest = attrs.drop_last();
        lemma_disables_leave_disabled(m, rest);
        assert(attribute_disables(attrs).drop_last() =~= attribute_disables(rest));
        assert forall|i: int| 0 <= i < attrs.len() implies !apply_calls(
            m,
            attribute_disables(attrs),
        ).enabled.contains(#[trigger] attrs[i].location()) by {
            if i < attrs.len() - 1 {
                assert(rest[i] == attrs[i]);
            }
        }
    }
}

/// After a render command has executed, from any device state, none of
/// the attribute arrays it references is still enabled and no buffer is
/// bound as the array buffer.
pub proof fn lemma_execute_leaves_nothing_bound(cmd: RenderCommand, m: DeviceModel)
    ensures
        apply_calls(m, cmd.calls()).array_buffer == 0,
        forall|i: int|
            0 <= i < cmd.attributes().len() ==> !apply_calls(m, cmd.calls()).enabled.contains(
                #[trigger] cmd.attributes()[i].location(),
            ),
{
    let attrs = cmd.attributes();
    let head = cmd.bind_calls() + seq![cmd.draw_call()];
    let unbind = DeviceCall::BindBuffer { target: GL_ARRAY_BUFFER, buffer: 0 };
    lemma_apply_calls_concat(m, head, attribute_unbinds(attrs));
    let before = apply_calls(m, head);
    assert(attribute_unbinds(attrs) =~= attribute_disables(attrs).push(unbind));
    assert(attribute_disables(attrs).push(unbind).drop_last() =~= attribute_disables(attrs));
    lemma_disables_leave_disabled(before, attrs);
}

} // verus!
