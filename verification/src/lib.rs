//! Wire protocols spoken between desktop "ghost" agents and their hosts:
//! SSTP requests and responses, SHIORI/3.0 requests and responses, the
//! header model and the charset-aware codec they share, and a tokenizer for
//! the Sakura Script text that the headers carry.
//!
//! Every parser here is a total function on bytes whose result is pinned by
//! a specification function over `Seq<u8>`; every serializer states the exact
//! bytes it writes, and the two are proved inverse to each other.
pub mod charset;
pub mod header;
pub mod sakura_script;
pub mod shiori;
pub mod sstp;
pub mod util;
