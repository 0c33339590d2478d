//! The media host: what an upload of one image sends, and what is made of
//! the host's answer. Sending is the caller's part.

use vstd::prelude::*;
use crate::text::joined;

verus! {

pub const UPLOAD_URL_HEAD: &'static str = "https://api.cloudinary.com/v1_1/";

pub const UPLOAD_URL_TAIL: &'static str = "/image/upload";

pub const DEFAULT_UPLOAD_PRESET: &'static str = "portfolio_uploads";

pub const UPLOAD_FOLDER: &'static str = "portfolio";

pub const UPLOAD_MIME: &'static str = "image/png";

pub const CLOUD_NAME_UNSET: &'static str = "CLOUDINARY_CLOUD_NAME must be set";

pub const UPLOAD_NOT_SENT: &'static str = "Failed to upload to Cloudinary: ";

pub const UPLOAD_REFUSED: &'static str = "Cloudinary upload failed: ";

pub const UPLOAD_UNREADABLE: &'static str = "Failed to parse Cloudinary response: ";

/// What the media host answers to an upload that it accepted.
#[derive(Debug, Clone, PartialEq, Eq)]
pub struct CloudinaryResponse {
    pub secure_url: String,
    pub public_id: String,
}

/// The account at the media host.
#[derive(Debug, Clone, PartialEq, Eq)]
pub struct CloudinaryService {
    cloud_name: String,
    upload_preset: String,
}

/// One multipart form submission to the media host: the file goes in the part
/// `file`, the two texts in the fields `upload_preset` and `folder`.
#[derive(Debug, Clone, PartialEq, Eq)]
pub struct UploadRequest {
    pub url: String,
    pub file: Vec<u8>,
    pub file_name: String,
    pub mime: String,
    pub upload_preset: String,
    pub folder: String,
}

/// An upload request as plain values.
pub struct UploadRequestView {
    pub url: Seq<char>,
    pub file: Seq<u8>,
    pub file_name: Seq<char>,
    pub mime: Seq<char>,
    pub upload_preset: Seq<char>,
    pub folder: Seq<char>,
}

impl View for UploadRequest {
    type V = UploadRequestView;

    open spec fn view(&self) -> UploadRequestView {
        UploadRequestView {
            url: self.url@,
            file: self.file@,
            file_name: self.file_name@,
            mime: self.mime@,
            upload_preset: self.upload_preset@,
            folder: self.folder@,
        }
    }
}

/// How an upload ended. Each failure carries the text of its cause.
#[derive(Debug, Clone, PartialEq, Eq)]
pub enum UploadReply {
    /// The request could not be put together; nothing was sent.
    NotBuilt(String),
    /// The network call failed.
    NotSent(String),
    /// The host answered with a status that is no success; the text is the
    /// body of its answer.
    Refused(String),
    /// The host answered with success, but its body has not the expected shape.
    Unreadable(String),
    /// The host stored the image.
    Stored(CloudinaryResponse),
}

/// What `upload_image_result` makes of a reply, as plain values.
pub open spec fn upload_result(reply: UploadReply) -> Result<Seq<char>, Seq<char>> {
    match reply {
        UploadReply::NotBuilt(cause) => Err(cause@),
        UploadReply::NotSent(cause) => Err(UPLOAD_NOT_SENT@ + cause@),
        UploadReply::Refused(body) => Err(UPLOAD_REFUSED@ + body@),
        UploadReply::Unreadable(cause) => Err(UPLOAD_UNREADABLE@ + cause@),
        UploadReply::Stored(response) => Ok(response.secure_url@),
    }
}

/// A `Result` of two texts as plain values.
pub open spec fn result_text(r: Result<String, String>) -> Result<Seq<char>, Seq<char>> {
    match r {
        Ok(text) => Ok(text@),
        Err(text) => Err(text@),
    }
}

impl CloudinaryService {
    /// The account identifier.
    pub closed spec fn cloud_name(&self) -> Seq<char> {
        self.cloud_name@
    }

    /// The upload preset that every upload names.
    pub closed spec fn upload_preset(&self) -> Seq<char> {
        self.upload_preset@
    }

    /// What an upload of `image_data` under `filename` sends.
    pub open spec fn request(&self, image_data: Seq<u8>, filename: Seq<char>) -> UploadRequestView {
        UploadRequestView {
            url: UPLOAD_URL_HEAD@ + self.cloud_name() + UPLOAD_URL_TAIL@,
            file: image_data,
            file_name: filename,
            mime: UPLOAD_MIME@,
            upload_preset: self.upload_preset(),
            folder: UPLOAD_FOLDER@,
        }
    }

    /// The service for the configured account. Without an account identifier
    /// there is no service; without a preset the default one is used.
    pub fn new(cloud_name: Option<String>, upload_preset: Option<String>) -> (r: Result<
        Self,
        String,
    >)
        ensures
            match cloud_name {
                Some(name) => r matches Ok(service) && service.cloud_name() == name@
                    && service.upload_preset() == match upload_preset {
                    Some(preset) => preset@,
                    None => DEFAULT_UPLOAD_PRESET@,
                },
                None => r matches Err(message) && message@ == CLOUD_NAME_UNSET@,
            },
    {
        match cloud_name {
            None => Err(CLOUD_NAME_UNSET.to_string()),
            Some(cloud_name) => {
                let upload_preset = match upload_preset {
                    Some(preset) => preset,
                    None => DEFAULT_UPLOAD_PRESET.to_string(),
                };
                Ok(CloudinaryService { cloud_name, upload_preset })
            },
        }
    }

    /// The submission that uploads one image.
    pub fn upload_image(&self, image_data: Vec<u8>, filename: String) -> (request: UploadRequest)
        ensures
            request@ == self.request(image_data@, filename@),
    {
        let mut url = joined(UPLOAD_URL_HEAD, self.cloud_name.as_str());
        url.append(UPLOAD_URL_TAIL);
        UploadRequest {
            url,
            file: image_data,
            file_name: filename,
            mime: UPLOAD_MIME.to_string(),
            upload_preset: self.upload_preset.clone(),
            folder: UPLOAD_FOLDER.to_string(),
        }
    }

    /// The public URL of the stored image, or the message of the failure.
    pub fn upload_image_result(&self, reply: UploadReply) -> (r: Result<String, String>)
        ensures
            result_text(r) == upload_result(reply),
    {
        match reply {
            UploadReply::NotBuilt(cause) => Err(cause),
            UploadReply::NotSent(cause) => Err(joined(UPLOAD_NOT_SENT, cause.as_str())),
            UploadReply::Refused(body) => Err(joined(UPLOAD_REFUSED, body.as_str())),
            UploadReply::Unreadable(cause) => Err(joined(UPLOAD_UNREADABLE, cause.as_str())),
            UploadReply::Stored(response) => Ok(response.secure_url),
        }
    }
}

} // verus!
