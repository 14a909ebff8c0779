use vstd::prelude::*;

verus! {

/// The error taxonomy of the library. Every failing operation reports one of
/// these variants, each carrying a human-readable message.
#[derive(Debug, Clone)]
pub enum MathSeekError {
    /// The remote service rejected the request or returned a malformed or
    /// semantically invalid result.
    ApiError(String),
    /// Image decoding, validation or suitability failure.
    ImageError(String),
    /// Missing or invalid credentials or endpoint.
    ConfigError(String),
    /// Failure while rendering an export.
    ExportError(String),
    /// Transport failure, timeout, or exhausted retries.
    NetworkError(String),
    /// Filesystem failure in a collaborator.
    IoError(String),
    /// JSON (de)serialization failure.
    SerializationError(String),
    /// Catch-all.
    Unknown(String),
}

impl MathSeekError {
    /// The message carried by this error, whatever the variant.
    pub fn message(&self) -> (r: &String)
        ensures
            (match self {
                MathSeekError::ApiError(m) => m,
                MathSeekError::ImageError(m) => m,
                MathSeekError::ConfigError(m) => m,
                MathSeekError::ExportError(m) => m,
                MathSeekError::NetworkError(m) => m,
                MathSeekError::IoError(m) => m,
                MathSeekError::SerializationError(m) => m,
                MathSeekError::Unknown(m) => m,
            })@ == r@,
    {
        match self {
            MathSeekError::ApiError(m) => m,
            MathSeekError::ImageError(m) => m,
            MathSeekError::ConfigError(m) => m,
            MathSeekError::ExportError(m) => m,
            MathSeekError::NetworkError(m) => m,
            MathSeekError::IoError(m) => m,
            MathSeekError::SerializationError(m) => m,
            MathSeekError::Unknown(m) => m,
        }
    }
}

/// The display form of an error: a category label and the message.
pub open spec fn error_display_spec(e: MathSeekError) -> Seq<char> {
    match e {
        MathSeekError::ApiError(m) => "API调用失败: "@ + m@,
        MathSeekError::ImageError(m) => "图像处理错误: "@ + m@,
        MathSeekError::ConfigError(m) => "配置错误: "@ + m@,
        MathSeekError::ExportError(m) => "导出错误: "@ + m@,
        MathSeekError::NetworkError(m) => "网络错误: "@ + m@,
        MathSeekError::IoError(m) => "IO错误: "@ + m@,
        MathSeekError::SerializationError(m) => "序列化错误: "@ + m@,
        MathSeekError::Unknown(m) => "未知错误: "@ + m@,
    }
}

impl MathSeekError {
    /// The error written out with its category label.
    pub fn to_display_string(&self) -> (r: String)
        ensures
            r@ == error_display_spec(*self),
    {
        let mut out: String;
        match self {
            MathSeekError::ApiError(m) => {
                out = String::from_str("API调用失败: ");
                out.append(m.as_str());
            },
            MathSeekError::ImageError(m) => {
                out = String::from_str("图像处理错误: ");
                out.append(m.as_str());
            },
            MathSeekError::ConfigError(m) => {
                out = String::from_str("配置错误: ");
                out.append(m.as_str());
            },
            MathSeekError::ExportError(m) => {
                out = String::from_str("导出错误: ");
                out.append(m.as_str());
            },
            MathSeekError::NetworkError(m) => {
                out = String::from_str("网络错误: ");
                out.append(m.as_str());
            },
            MathSeekError::IoError(m) => {
                out = String::from_str("IO错误: ");
                out.append(m.as_str());
            },
            MathSeekError::SerializationError(m) => {
                out = String::from_str("序列化错误: ");
                out.append(m.as_str());
            },
            MathSeekError::Unknown(m) => {
                out = String::from_str("未知错误: ");
                out.append(m.as_str());
            },
        }
        out
    }
}

/// Result type used throughout the library.
pub type MathSeekResult<T> = Result<T, MathSeekError>;

} // verus!
