use vstd::prelude::*;
use vstd::utf8::encode_utf8;

use crate::codec::{
    append_text, append_u64, flag_at, flag_byte, le_bytes, lemma_text_at, lemma_u64_at, read_flag,
    read_text, read_u64, text_at, text_bytes, u64_at, Codec,
};

verus! {

/// A user profile as the resource handlers read and cache it.
#[derive(Clone, Debug, PartialEq, Eq)]
pub struct User {
    pub id: i64,
    pub first_name: String,
    pub last_name: String,
    pub language_code: String,
    pub allows_write_to_pm: bool,
    pub photo_url: String,
}

/// What a `User` holds, with each text as its characters.
pub struct UserView {
    pub id: i64,
    pub first_name: Seq<char>,
    pub last_name: Seq<char>,
    pub language_code: Seq<char>,
    pub allows_write_to_pm: bool,
    pub photo_url: Seq<char>,
}

impl View for User {
    type V = UserView;

    open spec fn view(&self) -> UserView {
        UserView {
            id: self.id,
            first_name: self.first_name@,
            last_name: self.last_name@,
            language_code: self.language_code@,
            allows_write_to_pm: self.allows_write_to_pm,
            photo_url: self.photo_url@,
        }
    }
}

pub open spec fn text_fits(s: Seq<char>) -> bool {
    encode_utf8(s).len() <= u64::MAX
}

/// The byte record of a user: the id as eight little-endian bytes, the first name,
/// last name and language code as text fields, one flag byte, then the photo URL.
pub open spec fn user_encoding(v: UserView) -> Seq<u8> {
    le_bytes(v.id as u64) + text_bytes(v.first_name) + text_bytes(v.last_name) + text_bytes(
        v.language_code,
    ) + seq![flag_byte(v.allows_write_to_pm)] + text_bytes(v.photo_url)
}

/// Reads a byte record back; any missing, malformed or trailing byte makes it no user.
pub open spec fn user_decoding(b: Seq<u8>) -> Option<UserView> {
    match u64_at(b, 0) {
        None => None,
        Some(id) => match text_at(b, 8) {
            None => None,
            Some((first_name, next1)) => match text_at(b, next1) {
                None => None,
                Some((last_name, next2)) => match text_at(b, next2) {
                    None => None,
                    Some((language_code, next3)) => match flag_at(b, next3) {
                        None => None,
                        Some(allows_write_to_pm) => match text_at(b, next3 + 1) {
                            None => None,
                            Some((photo_url, next4)) => if next4 == b.len() {
                                Some(
                                    UserView {
                                        id: id as i64,
                                        first_name,
                                        last_name,
                                        language_code,
                                        allows_write_to_pm,
                                        photo_url,
                                    },
                                )
                            } else {
                                None
                            },
                        },
                    },
                },
            },
        },
    }
}

impl Codec for User {
    open spec fn encodable(v: UserView) -> bool {
        &&& text_fits(v.first_name)
        &&& text_fits(v.last_name)
        &&& text_fits(v.language_code)
        &&& text_fits(v.photo_url)
    }

    open spec fn encoding(v: UserView) -> Seq<u8> {
        user_encoding(v)
    }

    open spec fn decoding(b: Seq<u8>) -> Option<UserView> {
        user_decoding(b)
    }

    proof fn lemma_round_trip(v: UserView) {
        let b = user_encoding(v);
        let f0 = le_bytes(v.id as u64);
        let f1 = text_bytes(v.first_name);
        let f2 = text_bytes(v.last_name);
        let f3 = text_bytes(v.language_code);
        let f4 = seq![flag_byte(v.allows_write_to_pm)];
        let f5 = text_bytes(v.photo_url);
        let e = Seq::<u8>::empty();
        let next1 = f0.len() + f1.len();
        let next2 = next1 + f2.len();
        let next3 = next2 + f3.len();
        assert(u64_at(b, 0) == Some(v.id as u64)) by {
            assert(b =~= e + f0 + (f1 + f2 + f3 + f4 + f5));
            lemma_u64_at(e, v.id as u64, f1 + f2 + f3 + f4 + f5);
        }
        assert(text_at(b, 8) == Some((v.first_name, next1 as int))) by {
            assert(b =~= f0 + f1 + (f2 + f3 + f4 + f5));
            lemma_text_at(f0, v.first_name, f2 + f3 + f4 + f5);
        }
        assert(text_at(b, next1 as int) == Some((v.last_name, next2 as int))) by {
            assert(b =~= (f0 + f1) + f2 + (f3 + f4 + f5));
            lemma_text_at(f0 + f1, v.last_name, f3 + f4 + f5);
        }
        assert(text_at(b, next2 as int) == Some((v.language_code, next3 as int))) by {
            assert(b =~= (f0 + f1 + f2) + f3 + (f4 + f5));
            lemma_text_at(f0 + f1 + f2, v.language_code, f4 + f5);
        }
        assert(flag_at(b, next3 as int) == Some(v.allows_write_to_pm)) by {
            assert(b =~= (f0 + f1 + f2 + f3) + (f4 + f5));
            assert(b[next3 as int] == flag_byte(v.allows_write_to_pm));
        }
        assert(text_at(b, next3 + 1int) == Some((v.photo_url, b.len() as int))) by {
            assert(b =~= (f0 + f1 + f2 + f3 + f4) + f5 + e);
            lemma_text_at(f0 + f1 + f2 + f3 + f4, v.photo_url, e);
        }
        let id = v.id;
        assert(((id as u64) as i64) == id) by (bit_vector);
    }

    fn encode(&self) -> (r: Vec<u8>) {
        let mut out: Vec<u8> = Vec::new();
        append_u64(&mut out, self.id as u64);
        append_text(&mut out, &self.first_name);
        append_text(&mut out, &self.last_name);
        append_text(&mut out, &self.language_code);
        let flag: u8 = if self.allows_write_to_pm {
            1
        } else {
            0
        };
        out.push(flag);
        append_text(&mut out, &self.photo_url);
        assert(out@ =~= user_encoding(self@));
        out
    }

    fn decode(b: &[u8]) -> (r: Option<User>) {
        let id = match read_u64(b, 0) {
            Some(id) => id,
            None => return None,
        };
        let (first_name, next1) = match read_text(b, 8) {
            Some(x) => x,
            None => return None,
        };
        let (last_name, next2) = match read_text(b, next1) {
            Some(x) => x,
            None => return None,
        };
        let (language_code, next3) = match read_text(b, next2) {
            Some(x) => x,
            None => return None,
        };
        let allows_write_to_pm = match read_flag(b, next3) {
            Some(f) => f,
            None => return None,
        };
        if next3 >= b.len() {
            return None;
        }
        let (photo_url, next4) = match read_text(b, next3 + 1) {
            Some(x) => x,
            None => return None,
        };
        if next4 != b.len() {
            return None;
        }
        Some(
            User {
                id: id as i64,
                first_name,
                last_name,
                language_code,
                allows_write_to_pm,
                photo_url,
            },
        )
    }
}

} // verus!
