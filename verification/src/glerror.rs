use vstd::prelude::*;

verus! {

/// What can go wrong while objects of the graphics interface are set up. Each error carries
/// the message that says what happened.
#[derive(Debug, PartialEq, Eq)]
pub enum GlError {
    /// A buffer or a vertex array could not be made.
    Buffer(String),
    /// A shader could not be read or compiled.
    Shader(String),
    /// A program could not be made or linked.
    ShaderProgram(String),
}

/// An error as contracts speak of it: its message as a sequence.
pub enum GlErrorView {
    Buffer(Seq<char>),
    Shader(Seq<char>),
    ShaderProgram(Seq<char>),
}

impl View for GlError {
    type V = GlErrorView;

    open spec fn view(&self) -> GlErrorView {
        match *self {
            GlError::Buffer(message) => GlErrorView::Buffer(message@),
            GlError::Shader(message) => GlErrorView::Shader(message@),
            GlError::ShaderProgram(message) => GlErrorView::ShaderProgram(message@),
        }
    }
}

/// A result as contracts speak of it: value and error by their views.
pub open spec fn seen<T: View>(result: Result<T, GlError>) -> Result<T::V, GlErrorView> {
    match result {
        Ok(value) => Ok(value@),
        Err(error) => Err(error@),
    }
}

impl GlError {
    /// The message that the error carries.
    pub open spec fn message(&self) -> Seq<char> {
        match *self {
            GlError::Buffer(message) => message@,
            GlError::Shader(message) => message@,
            GlError::ShaderProgram(message) => message@,
        }
    }

    /// The text that shows the error: what failed, then the message.
    pub open spec fn text(&self) -> Seq<char> {
        match *self {
            GlError::Buffer(message) => "Buffer error: "@ + message@,
            GlError::Shader(message) => "Shader compilation failed with: "@ + message@,
            GlError::ShaderProgram(message) => "Linking shader program failed with: "@ + message@,
        }
    }

    /// The text that shows the error.
    pub fn to_string(&self) -> (text: String)
        ensures
            text@ == self.text(),
    {
        match self {
            GlError::Buffer(message) => String::from_str("Buffer error: ").concat(message.as_str()),
            GlError::Shader(message) => String::from_str("Shader compilation failed with: ").concat(
                message.as_str(),
            ),
            GlError::ShaderProgram(message) => String::from_str(
                "Linking shader program failed with: ",
            ).concat(message.as_str()),
        }
    }
}

} // verus!
