//! Shader source text for the viewer's three GPU programs.
//!
//! The text itself is part of each program's protocol with the dispatcher:
//! the attribute and uniform names bound at draw time, and — for the
//! picking program — the flat `u_id` color that encodes object identity.
//! Compiling and linking happens in the rendering host; the sources live
//! here so every consumer binds the same names.

use vstd::prelude::*;

verus! {

/// The program that draws plain line geometry.
pub struct ProgramLines {}

impl ProgramLines {
    /// Vertex shader: positions through the view-projection matrix.
    pub fn vertex_shader_source() -> &'static str {
        "
     attribute vec4 vPosition;
     uniform mat4 uMatrix;
     void main()
     {
        gl_Position = uMatrix*vPosition;
     }
    "
    }

    /// Fragment shader: a fixed light gray.
    pub fn fragment_shader_source() -> &'static str {
        "
    precision mediump float;
     void main()
     {
       gl_FragColor = vec4(0.9, 0.9, 0.9, 1);
     }
    "
    }
}

/// The program that draws lit triangles with per-vertex normals.
pub struct ProgramTrianglesWithNormals {}

impl ProgramTrianglesWithNormals {
    /// Vertex shader: positions through the view-projection matrix,
    /// normals through the inverse-transpose view matrix.
    pub fn vertex_shader_source() -> &'static str {
        "
     attribute vec4 a_position;
     attribute vec3 a_normal;
     uniform mat4 uWorldviewInverseTranspose;

     uniform mat4 uWorldviewProjection;

     varying vec3 vNormal;

     void main()
     {
        gl_Position = uWorldviewProjection*a_position;
        vNormal = mat3(uWorldviewInverseTranspose)*a_normal;
     }
    "
    }

    /// Fragment shader: flat diffuse color lit by one fixed reverse
    /// light direction.
    pub fn fragment_shader_source() -> &'static str {
        "
     precision mediump float;

     varying vec3 vNormal;

     uniform vec3 u_reverseLightDirection;

     uniform vec4 u_color;

     void main()
     {
       gl_FragColor = u_color;
       vec3 normal = normalize(vNormal);
       float light = (dot(normal, u_reverseLightDirection)+2.0)/3.0;
       gl_FragColor.rgb *= light;
     }
    "
    }
}

/// The picking program: geometry is drawn in one flat id color.
pub struct ProgramPicker {}

impl ProgramPicker {
    /// Vertex shader: positions through the view-projection matrix.
    pub fn vertex_shader_source() -> &'static str {
        "
  attribute vec4 a_position;

  uniform mat4 uMatrix;

  void main() {
    gl_Position = uMatrix * a_position;
  }
  "
    }

    /// Fragment shader: every fragment takes the object's id color.
    pub fn fragment_shader_source() -> &'static str {
        "
  precision mediump float;

  uniform vec4 u_id;

  void main() {
     gl_FragColor = u_id;
  }
  "
    }
}

} // verus!
