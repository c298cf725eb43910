//! The fixed color palette of the notifier light, and resolution of color
//! names against it.
use vstd::prelude::*;

verus! {

/// A color the notifier light can show.
#[derive(Debug, Clone, Copy, PartialEq, Eq, Structural)]
pub enum Led {
    Red,
    Green,
    Blue,
    White,
    Blank,
}

/// The color a name stands for, or `None` when the name is outside the palette.
pub open spec fn led_named(name: Seq<char>) -> Option<Led> {
    if name == "red"@ {
        Some(Led::Red)
    } else if name == "green"@ {
        Some(Led::Green)
    } else if name == "blue"@ {
        Some(Led::Blue)
    } else if name == "white"@ {
        Some(Led::White)
    } else if name == "blank"@ {
        Some(Led::Blank)
    } else {
        None
    }
}

/// The palette name of a color.
pub open spec fn name_of(led: Led) -> Seq<char> {
    match led {
        Led::Red => "red"@,
        Led::Green => "green"@,
        Led::Blue => "blue"@,
        Led::White => "white"@,
        Led::Blank => "blank"@,
    }
}

/// The red, green and blue levels of a color.
pub open spec fn rgb_of(led: Led) -> (u8, u8, u8) {
    match led {
        Led::Red => (255, 0, 0),
        Led::Green => (0, 255, 0),
        Led::Blue => (0, 0, 255),
        Led::White => (255, 255, 255),
        Led::Blank => (0, 0, 0),
    }
}

/// A configuration named a color outside the palette.
#[derive(Debug, Clone, PartialEq, Eq)]
pub struct UnknownColorError {
    pub name: String,
}

impl Led {
    /// Resolves a color name against the palette.
    pub fn resolve(name: &str) -> (r: Result<Led, UnknownColorError>)
        ensures
            match r {
                Ok(led) => led_named(name@) == Some(led),
                Err(e) => led_named(name@).is_none() && e.name@ == name@,
            },
    {
        let text = name.to_owned();
        if text == "red".to_owned() {
            Ok(Led::Red)
        } else if text == "green".to_owned() {
            Ok(Led::Green)
        } else if text == "blue".to_owned() {
            Ok(Led::Blue)
        } else if text == "white".to_owned() {
            Ok(Led::White)
        } else if text == "blank".to_owned() {
            Ok(Led::Blank)
        } else {
            Err(UnknownColorError { name: text })
        }
    }

    /// The palette name of this color; resolving it gives the color back.
    pub fn name(&self) -> (r: &'static str)
        ensures
            r@ == name_of(*self),
    {
        proof {
            reveal_strlit("red");
            reveal_strlit("green");
            reveal_strlit("blue");
            reveal_strlit("white");
            reveal_strlit("blank");
        }
        match self {
            Led::Red => "red",
            Led::Green => "green",
            Led::Blue => "blue",
            Led::White => "white",
            Led::Blank => "blank",
        }
    }

    /// The red, green and blue levels the device is given for this color.
    pub fn rgb(&self) -> (r: (u8, u8, u8))
        ensures
            r == rgb_of(*self),
    {
        match self {
            Led::Red => (255, 0, 0),
            Led::Green => (0, 255, 0),
            Led::Blue => (0, 0, 255),
            Led::White => (255, 255, 255),
            Led::Blank => (0, 0, 0),
        }
    }
}

/// Every palette color is found again under its own name.
pub proof fn lemma_name_resolves(led: Led)
    ensures
        led_named(name_of(led)) == Some(led),
{
    reveal_strlit("red");
    reveal_strlit("green");
    reveal_strlit("blue");
    reveal_strlit("white");
    reveal_strlit("blank");
    assert("red"@[0] == 'r' && "green"@[0] == 'g' && "white"@[0] == 'w');
    assert("blue"@[0] == 'b' && "blank"@[0] == 'b' && "blue"@.len() != "blank"@.len());
}

/// The colors of a configuration: the pending animation and the two final
/// colors.
#[derive(Debug)]
pub struct Colors {
    pending: Vec<Led>,
    failure: Led,
    success: Led,
}

impl Colors {
    pub fn new(pending: Vec<Led>, failure: Led, success: Led) -> (r: Colors)
        ensures
            r.pending_spec() == pending@,
            r.failure_spec() == failure,
            r.success_spec() == success,
    {
        Colors { pending, failure, success }
    }

    pub closed spec fn pending_spec(&self) -> Seq<Led> {
        self.pending@
    }

    pub closed spec fn failure_spec(&self) -> Led {
        self.failure
    }

    pub closed spec fn success_spec(&self) -> Led {
        self.success
    }

    /// The pending animation's colors, in order.
    pub fn pending(&self) -> (r: &[Led])
        ensures
            r@ == self.pending_spec(),
    {
        self.pending.as_slice()
    }

    /// The color shown after a failure.
    pub fn failure(&self) -> (r: &Led)
        ensures
            *r == self.failure_spec(),
    {
        &self.failure
    }

    /// The color shown after success.
    pub fn success(&self) -> (r: &Led)
        ensures
            *r == self.success_spec(),
    {
        &self.success
    }
}

} // verus!
