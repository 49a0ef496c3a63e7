//! What can go wrong between the file system and the drive.

use vstd::prelude::*;

verus! {

/// An operation on the drive that failed.
#[derive(Debug)]
pub enum DriveError {
    /// The drive refused, or was not reached; the text says why.
    Service(String),
    /// The drive answered a search without a list of files.
    NoFilesReceived,
    /// A search for the root directory found no file, or one that lies nowhere.
    NoFilesOnDrive,
    /// The file that a search for the root directory found does not say where it lies.
    NoParents,
    /// The file whose content is to be replaced is not on the drive.
    FileNotOnDrive,
    /// The drive did not say how much storage there is.
    NoStorageQuota,
}

impl DriveError {
    /// The text of the error.
    pub open spec fn text(self) -> Seq<char> {
        match self {
            DriveError::Service(message) => message@,
            DriveError::NoFilesReceived => "No files received"@,
            DriveError::NoFilesOnDrive => "No files on drive. Can't deduce drive id for 'My Drive'"@,
            DriveError::NoParents =>
                "Probed file has no parents. Can't deduce drive id for 'My Drive'"@,
            DriveError::FileNotOnDrive => "flush(): file doesn't exist on drive!"@,
            DriveError::NoStorageQuota => "size_and_capacity(): no storage quota in response"@,
        }
    }

    /// The text of the error.
    pub fn message(&self) -> (r: String)
        ensures
            r@ == self.text(),
    {
        match self {
            DriveError::Service(message) => message.clone(),
            DriveError::NoFilesReceived => "No files received".to_owned(),
            DriveError::NoFilesOnDrive =>
                "No files on drive. Can't deduce drive id for 'My Drive'".to_owned(),
            DriveError::NoParents =>
                "Probed file has no parents. Can't deduce drive id for 'My Drive'".to_owned(),
            DriveError::FileNotOnDrive => "flush(): file doesn't exist on drive!".to_owned(),
            DriveError::NoStorageQuota =>
                "size_and_capacity(): no storage quota in response".to_owned(),
        }
    }
}

/// What the drive had to say is handed on as it is; every other error has a text of its own.
pub proof fn law_texts_of_errors(message: String)
    ensures
        DriveError::Service(message).text() == message@,
        DriveError::NoFilesReceived.text() == "No files received"@,
        DriveError::NoFilesOnDrive.text()
            == "No files on drive. Can't deduce drive id for 'My Drive'"@,
        DriveError::NoParents.text()
            == "Probed file has no parents. Can't deduce drive id for 'My Drive'"@,
        DriveError::FileNotOnDrive.text() == "flush(): file doesn't exist on drive!"@,
        DriveError::NoStorageQuota.text() == "size_and_capacity(): no storage quota in response"@,
{
}

} // verus!
