use vstd::prelude::*;

use crate::config::storage::{crc32, spec_crc32};
use crate::config::types::{ConfigError, MAX_PAYLOAD_SIZE};

verus! {

/// A configuration upload in chunks: announced length and checksum, then
/// consecutive chunks, then a commit.
#[derive(Clone, Copy, Debug, PartialEq, Eq, Structural)]
pub struct WriteSession {
    active: bool,
    expected_len: u32,
    expected_crc32: u32,
    received_len: u32,
}

impl WriteSession {
    pub closed spec fn spec_active(&self) -> bool {
        self.active
    }

    pub closed spec fn spec_expected_len(&self) -> u32 {
        self.expected_len
    }

    pub closed spec fn spec_expected_crc32(&self) -> u32 {
        self.expected_crc32
    }

    pub closed spec fn spec_received_len(&self) -> u32 {
        self.received_len
    }

    /// An idle session.
    pub open spec fn spec_idle(&self) -> bool {
        &&& !self.spec_active()
        &&& self.spec_expected_len() == 0
        &&& self.spec_expected_crc32() == 0
        &&& self.spec_received_len() == 0
    }

    /// What is received never exceeds what was announced, which fits the
    /// staging buffer.
    pub open spec fn wf(&self) -> bool {
        &&& self.spec_received_len() <= self.spec_expected_len()
        &&& self.spec_expected_len() <= MAX_PAYLOAD_SIZE
    }

    pub fn new() -> (s: Self)
        ensures
            s.spec_idle(),
            s.wf(),
    {
        Self { active: false, expected_len: 0, expected_crc32: 0, received_len: 0 }
    }

    /// Starts an upload of `expected_len` bytes whose CRC-32 is
    /// `expected_crc32`, and clears the staging buffer.
    pub fn begin(&mut self, staging_buf: &mut [u8; 4068], expected_len: u32, expected_crc32: u32) -> (r:
        Result<(), ConfigError>)
        requires
            old(self).wf(),
        ensures
            final(self).wf(),
            old(self).spec_active() ==> r == Err::<(), ConfigError>(ConfigError::WriteSessionBusy)
                && *final(self) == *old(self) && final(staging_buf)@ == old(staging_buf)@,
            !old(self).spec_active() && (expected_len == 0 || expected_len > MAX_PAYLOAD_SIZE)
                ==> r == Err::<(), ConfigError>(ConfigError::InvalidPayloadLength) && *final(self)
                == *old(self) && final(staging_buf)@ == old(staging_buf)@,
            !old(self).spec_active() && 0 < expected_len <= MAX_PAYLOAD_SIZE ==> {
                &&& r is Ok
                &&& final(self).spec_active()
                &&& final(self).spec_expected_len() == expected_len
                &&& final(self).spec_expected_crc32() == expected_crc32
                &&& final(self).spec_received_len() == 0
                &&& final(staging_buf)@ == Seq::new(4068, |i: int| 0u8)
            },
    {
        if self.active {
            return Err(ConfigError::WriteSessionBusy);
        }
        if expected_len == 0 || expected_len as usize > MAX_PAYLOAD_SIZE {
            return Err(ConfigError::InvalidPayloadLength);
        }
        let mut k: usize = 0;
        while k < MAX_PAYLOAD_SIZE
            invariant
                0 <= k <= MAX_PAYLOAD_SIZE,
                forall|i: int| 0 <= i < k ==> staging_buf@[i] == 0,
            decreases MAX_PAYLOAD_SIZE - k,
        {
            staging_buf[k] = 0;
            k = k + 1;
        }
        assert(staging_buf@ =~= Seq::new(4068, |i: int| 0u8));
        *self = Self { active: true, expected_len, expected_crc32, received_len: 0 };
        Ok(())
    }

    /// Stores `chunk` at `offset`, which must be where the previous chunk
    /// ended.
    pub fn write_chunk(&mut self, staging_buf: &mut [u8; 4068], offset: u32, chunk: &[u8]) -> (r:
        Result<(), ConfigError>)
        requires
            old(self).wf(),
        ensures
            final(self).wf(),
            !old(self).spec_active() ==> r == Err::<(), ConfigError>(
                ConfigError::WriteSessionNotActive,
            ) && *final(self) == *old(self) && final(staging_buf)@ == old(staging_buf)@,
            old(self).spec_active() && offset != old(self).spec_received_len() ==> r == Err::<
                (),
                ConfigError,
            >(ConfigError::WriteSequenceMismatch) && *final(self) == *old(self)
                && final(staging_buf)@ == old(staging_buf)@,
            old(self).spec_active() && offset == old(self).spec_received_len() && offset
                + chunk@.len() > old(self).spec_expected_len() ==> r == Err::<(), ConfigError>(
                ConfigError::InvalidPayloadLength,
            ) && *final(self) == *old(self) && final(staging_buf)@ == old(staging_buf)@,
            old(self).spec_active() && offset == old(self).spec_received_len() && offset
                + chunk@.len() <= old(self).spec_expected_len() ==> {
                &&& r is Ok
                &&& final(self).spec_active()
                &&& final(self).spec_expected_len() == old(self).spec_expected_len()
                &&& final(self).spec_expected_crc32() == old(self).spec_expected_crc32()
                &&& final(self).spec_received_len() == offset + chunk@.len()
                &&& final(staging_buf)@ == old(staging_buf)@.subrange(0, offset as int) + chunk@
                    + old(staging_buf)@.subrange(offset + chunk@.len(), 4068)
            },
    {
        if !self.active {
            return Err(ConfigError::WriteSessionNotActive);
        }
        if offset != self.received_len {
            return Err(ConfigError::WriteSequenceMismatch);
        }
        if chunk.len() > (self.expected_len - offset) as usize {
            return Err(ConfigError::InvalidPayloadLength);
        }
        let start = offset as usize;
        let end = start + chunk.len();
        let ghost before = staging_buf@;
        let mut k: usize = 0;
        while k < chunk.len()
            invariant
                0 <= k <= chunk@.len(),
                start + chunk@.len() == end,
                end <= 4068,
                staging_buf@.len() == 4068,
                forall|i: int| 0 <= i < start ==> staging_buf@[i] == before[i],
                forall|i: int| end <= i < 4068 ==> staging_buf@[i] == before[i],
                forall|i: int| 0 <= i < k ==> staging_buf@[start + i] == chunk@[i],
            decreases chunk@.len() - k,
        {
            staging_buf[start + k] = chunk[k];
            k = k + 1;
        }
        assert(staging_buf@ =~= before.subrange(0, offset as int) + chunk@ + before.subrange(
            offset + chunk@.len(),
            4068,
        ));
        self.received_len = end as u32;
        Ok(())
    }

    /// Checks a finished upload: all announced bytes received and their
    /// CRC-32 as announced. Returns the payload length.
    pub fn verify_payload(&self, staging_buf: &[u8; 4068]) -> (r: Result<usize, ConfigError>)
        requires
            self.wf(),
        ensures
            r == self.spec_verify_payload(staging_buf@),
    {
        if !self.active {
            return Err(ConfigError::WriteSessionNotActive);
        }
        if self.received_len != self.expected_len {
            return Err(ConfigError::WriteSequenceMismatch);
        }
        let expected_len = self.expected_len as usize;
        let payload = &staging_buf.as_slice()[0..expected_len];
        if crc32(payload) != self.expected_crc32 {
            return Err(ConfigError::PayloadCrcMismatch);
        }
        Ok(expected_len)
    }

    pub open spec fn spec_verify_payload(&self, staged: Seq<u8>) -> Result<usize, ConfigError> {
        if !self.spec_active() {
            Err(ConfigError::WriteSessionNotActive)
        } else if self.spec_received_len() != self.spec_expected_len() {
            Err(ConfigError::WriteSequenceMismatch)
        } else if spec_crc32(staged.subrange(0, self.spec_expected_len() as int))
            != self.spec_expected_crc32() {
            Err(ConfigError::PayloadCrcMismatch)
        } else {
            Ok(self.spec_expected_len() as usize)
        }
    }

    /// Completes the upload. `decoded` is what parsing and validating the
    /// staged payload gave; it is returned when the payload passes
    /// `verify_payload`, and a successful result ends the session. Any error
    /// leaves the session as it was.
    pub fn commit<C>(&mut self, staging_buf: &[u8; 4068], decoded: Result<C, ConfigError>) -> (r:
        Result<C, ConfigError>)
        requires
            old(self).wf(),
        ensures
            final(self).wf(),
            old(self).spec_verify_payload(staging_buf@) matches Err(e) ==> r == Err::<
                C,
                ConfigError,
            >(e) && *final(self) == *old(self),
            old(self).spec_verify_payload(staging_buf@) is Ok ==> r == decoded,
            old(self).spec_verify_payload(staging_buf@) is Ok && decoded is Err ==> *final(self)
                == *old(self),
            old(self).spec_verify_payload(staging_buf@) is Ok && decoded is Ok
                ==> final(self).spec_idle(),
    {
        match self.verify_payload(staging_buf) {
            Ok(_) => {},
            Err(e) => {
                return Err(e);
            },
        }
        match decoded {
            Ok(config) => {
                *self = Self::new();
                Ok(config)
            },
            Err(e) => Err(e),
        }
    }

    pub fn abort(&mut self)
        ensures
            final(self).spec_idle(),
            final(self).wf(),
    {
        *self = Self::new();
    }

    pub fn is_active(&self) -> (b: bool)
        ensures
            b == self.spec_active(),
    {
        self.active
    }
}

impl Default for WriteSession {
    fn default() -> (s: Self)
        ensures
            s.spec_idle(),
            s.wf(),
    {
        Self::new()
    }
}

/// Uploading a payload in one chunk and committing passes the checks exactly
/// when the announced checksum is the payload's CRC-32.
pub proof fn lemma_single_chunk_upload(staged: Seq<u8>, payload: Seq<u8>, s: WriteSession)
    requires
        s.spec_active(),
        s.spec_received_len() == s.spec_expected_len(),
        s.spec_expected_len() == payload.len(),
        staged.len() == 4068,
        staged.subrange(0, payload.len() as int) == payload,
    ensures
        (s.spec_verify_payload(staged) is Ok) == (spec_crc32(payload) == s.spec_expected_crc32()),
{
}

} // verus!
