use vstd::prelude::*;

use crate::domain::ExternalInput;
use crate::json::JsonValue;

verus! {

/// One field of a request body as the client sent it.
#[derive(Debug)]
pub enum UserInput<T> {
    /// A value of the expected type.
    Typed(T),
    /// A value of another type, kept as it was sent.
    WrongType(JsonValue),
    /// An explicit `null`.
    Null,
    /// The field was left out.
    Missing,
}

impl<T> Default for UserInput<T> {
    fn default() -> (r: Self)
        ensures
            r is Missing,
    {
        UserInput::Missing
    }
}

/// The external input that a user input stands for, variant by variant.
pub open spec fn external_of<T>(input: UserInput<T>) -> ExternalInput<T> {
    match input {
        UserInput::Typed(t) => ExternalInput::Typed(t),
        UserInput::WrongType(v) => ExternalInput::WrongType(v),
        UserInput::Null => ExternalInput::Null,
        UserInput::Missing => ExternalInput::Missing,
    }
}

/// What deserialising a field as `Option<T>` gave: the value, `null`, or a
/// failure.
#[derive(Debug)]
pub enum Attempt<T> {
    Value(T),
    Null,
    Failed,
}

impl<T> UserInput<T> {
    pub fn into_external(self) -> (r: ExternalInput<T>)
        ensures
            r == external_of(self),
    {
        match self {
            UserInput::Typed(t) => ExternalInput::Typed(t),
            UserInput::WrongType(v) => ExternalInput::WrongType(v),
            UserInput::Null => ExternalInput::Null,
            UserInput::Missing => ExternalInput::Missing,
        }
    }

    /// The input that a raw field becomes: the value when it has the
    /// expected type, `Null` for `null`, and the raw value otherwise.
    pub fn from_deserialized(raw: JsonValue, attempt: Attempt<T>) -> (r: Self)
        ensures
            match attempt {
                Attempt::Value(t) => r == UserInput::Typed(t),
                Attempt::Null => r is Null,
                Attempt::Failed => r == UserInput::<T>::WrongType(raw),
            },
    {
        match attempt {
            Attempt::Value(t) => UserInput::Typed(t),
            Attempt::Null => UserInput::Null,
            Attempt::Failed => UserInput::WrongType(raw),
        }
    }

    /// The value to serialise: the typed value, or nothing (`null`).
    pub fn as_option(&self) -> (r: Option<&T>)
        ensures
            match *self {
                UserInput::Typed(t) => r == Some(&t),
                _ => r is None,
            },
    {
        match self {
            UserInput::Typed(t) => Some(t),
            _ => None,
        }
    }
}

/// A user input that also accepts the expected value written as a string.
#[derive(Debug)]
pub struct LossyUserInput<T>(pub UserInput<T>);

impl<T> Default for LossyUserInput<T> {
    fn default() -> (r: Self)
        ensures
            r.0 is Missing,
    {
        LossyUserInput(UserInput::Missing)
    }
}

impl<T> LossyUserInput<T> {
    /// Like [`UserInput::from_deserialized`], except that a raw string that
    /// does not deserialise is parsed with `parse`, and its value kept when
    /// parsing succeeds.
    pub fn from_deserialized<P: FnOnce(&String) -> Option<T>>(
        raw: JsonValue,
        attempt: Attempt<T>,
        parse: P,
    ) -> (r: Self)
        requires
            raw matches JsonValue::String(s) ==> call_requires(parse, (&s,)),
        ensures
            match attempt {
                Attempt::Value(t) => r.0 == UserInput::Typed(t),
                Attempt::Null => r.0 is Null,
                Attempt::Failed => match raw {
                    JsonValue::String(s) => match r.0 {
                        UserInput::Typed(t) => call_ensures(parse, (&s,), Some(t)),
                        UserInput::WrongType(v) => v == raw && call_ensures(parse, (&s,), None),
                        _ => false,
                    },
                    _ => r.0 == UserInput::<T>::WrongType(raw),
                },
            },
    {
        match attempt {
            Attempt::Value(t) => LossyUserInput(UserInput::Typed(t)),
            Attempt::Null => LossyUserInput(UserInput::Null),
            Attempt::Failed => {
                let parsed = match &raw {
                    JsonValue::String(s) => parse(s),
                    _ => None,
                };
                match parsed {
                    Some(t) => LossyUserInput(UserInput::Typed(t)),
                    None => LossyUserInput(UserInput::WrongType(raw)),
                }
            },
        }
    }

    pub fn into_external(self) -> (r: ExternalInput<T>)
        ensures
            r == external_of(self.0),
    {
        self.0.into_external()
    }
}

} // verus!
