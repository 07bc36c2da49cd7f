use vstd::prelude::*;
use vstd::string::StringExecFns;

verus! {

broadcast use vstd::string::group_string_axioms;

/// The closed set of piece kinds; `Empty` is the distinguished value held by
/// a square with no piece on it.
#[derive(Clone, Copy, PartialEq, Eq, Structural, Debug)]
pub enum PieceType {
    Empty,
    Pawn,
    Rook,
    Knight,
    Bishop,
    Queen,
    King,
}

/// One square's contents: a piece kind, the side it belongs to, and whether
/// it has been moved since the game began. An empty square is a `ChessPiece`
/// whose kind is `Empty`; its `is_black` flag is meaningless and its colour
/// reads as "none".
#[derive(Clone, Copy, PartialEq, Eq, Structural, Debug)]
pub struct ChessPiece {
    pub is_black: bool,
    pub piece_type: PieceType,
    pub has_moved: bool,
}

/// The piece value held by every empty square.
pub open spec fn empty_piece() -> ChessPiece {
    ChessPiece { is_black: false, piece_type: PieceType::Empty, has_moved: false }
}

/// The colour label a piece reports: "none" for an empty square, otherwise
/// "black" or "white".
pub open spec fn color_label(p: ChessPiece) -> Seq<char> {
    if p.piece_type == PieceType::Empty {
        "none"@
    } else if p.is_black {
        "black"@
    } else {
        "white"@
    }
}

/// The kind label a piece reports.
pub open spec fn type_label(t: PieceType) -> Seq<char> {
    match t {
        PieceType::Empty => "none"@,
        PieceType::Pawn => "pawn"@,
        PieceType::Rook => "rook"@,
        PieceType::Knight => "knight"@,
        PieceType::Bishop => "bishop"@,
        PieceType::Queen => "queen"@,
        PieceType::King => "king"@,
    }
}

/// Whether a character sequence is one of the seven kind labels.
pub open spec fn is_type_label(s: Seq<char>) -> bool {
    ||| s == "none"@
    ||| s == "pawn"@
    ||| s == "rook"@
    ||| s == "knight"@
    ||| s == "bishop"@
    ||| s == "queen"@
    ||| s == "king"@
}

/// The kind a label denotes; labels outside the seven read as `King`, but
/// callers only apply this to valid labels.
pub open spec fn type_of_label(s: Seq<char>) -> PieceType {
    if s == "none"@ {
        PieceType::Empty
    } else if s == "pawn"@ {
        PieceType::Pawn
    } else if s == "rook"@ {
        PieceType::Rook
    } else if s == "knight"@ {
        PieceType::Knight
    } else if s == "bishop"@ {
        PieceType::Bishop
    } else if s == "queen"@ {
        PieceType::Queen
    } else {
        PieceType::King
    }
}

/// The nine labels ("black", "white" and the seven kind labels) denote nine
/// distinct character sequences, so `type_of_label` sends each kind label to
/// its own kind.
pub proof fn lemma_labels_distinct()
    ensures
        "black"@ != "white"@,
        type_of_label("none"@) == PieceType::Empty,
        type_of_label("pawn"@) == PieceType::Pawn,
        type_of_label("rook"@) == PieceType::Rook,
        type_of_label("knight"@) == PieceType::Knight,
        type_of_label("bishop"@) == PieceType::Bishop,
        type_of_label("queen"@) == PieceType::Queen,
        type_of_label("king"@) == PieceType::King,
{
    reveal_strlit("black");
    reveal_strlit("white");
    reveal_strlit("none");
    reveal_strlit("pawn");
    reveal_strlit("rook");
    reveal_strlit("knight");
    reveal_strlit("bishop");
    reveal_strlit("queen");
    reveal_strlit("king");
    assert("black"@[0] == 'b' && "white"@[0] == 'w');
    assert("none"@[0] == 'n' && "none"@.len() == 4);
    assert("pawn"@[0] == 'p' && "pawn"@.len() == 4);
    assert("rook"@[0] == 'r' && "rook"@.len() == 4);
    assert("knight"@[0] == 'k' && "knight"@.len() == 6);
    assert("bishop"@[0] == 'b' && "bishop"@.len() == 6);
    assert("queen"@[0] == 'q' && "queen"@.len() == 5);
    assert("king"@[0] == 'k' && "king"@.len() == 4);
}

impl ChessPiece {
    /// Whether this square holds no piece.
    pub open spec fn spec_is_empty(self) -> bool {
        self.piece_type == PieceType::Empty
    }

    /// Whether this is a white piece (an empty square is neither colour).
    pub open spec fn spec_is_white(self) -> bool {
        !self.is_black && !self.spec_is_empty()
    }

    /// Whether two squares report the same colour, empty squares both
    /// reading as "none".
    pub open spec fn spec_same_color(self, other: ChessPiece) -> bool {
        color_label(self) == color_label(other)
    }
}

impl Default for ChessPiece {
    /// The empty-square value.
    fn default() -> (r: Self)
        ensures
            r == empty_piece(),
    {
        ChessPiece { is_black: false, piece_type: PieceType::Empty, has_moved: false }
    }
}

impl ChessPiece {
    /// Builds an unmoved piece of the given colour and kind from their
    /// labels; the colour must be "black" or "white" and the kind one of the
    /// seven kind labels.
    pub fn construct(color: String, piece_type: String) -> (r: Self)
        requires
            color@ == "black"@ || color@ == "white"@,
            is_type_label(piece_type@),
        ensures
            r.is_black == (color@ == "black"@),
            r.piece_type == type_of_label(piece_type@),
            !r.has_moved,
    {
        let is_black = color == String::from_str("black");
        let parsed_type: PieceType = if piece_type == String::from_str("none") {
            PieceType::Empty
        } else if piece_type == String::from_str("pawn") {
            PieceType::Pawn
        } else if piece_type == String::from_str("rook") {
            PieceType::Rook
        } else if piece_type == String::from_str("knight") {
            PieceType::Knight
        } else if piece_type == String::from_str("bishop") {
            PieceType::Bishop
        } else if piece_type == String::from_str("queen") {
            PieceType::Queen
        } else {
            PieceType::King
        };
        ChessPiece { is_black, piece_type: parsed_type, has_moved: false }
    }

    /// The colour label: "none", "black" or "white".
    pub fn get_color(&self) -> (r: String)
        ensures
            r@ == color_label(*self),
    {
        if self.is_empty() {
            String::from_str("none")
        } else if self.is_black {
            String::from_str("black")
        } else {
            String::from_str("white")
        }
    }

    /// Whether the piece carries the black flag; an empty square reads false.
    pub fn is_black(&self) -> (r: bool)
        ensures
            r == self.is_black,
    {
        self.is_black
    }

    /// Whether this is a white piece; an empty square reads false.
    pub fn is_white(&self) -> (r: bool)
        ensures
            r == self.spec_is_white(),
    {
        !self.is_black && !self.is_empty()
    }

    /// The kind label: "none", "pawn", "rook", "knight", "bishop", "queen"
    /// or "king".
    pub fn get_type(&self) -> (r: String)
        ensures
            r@ == type_label(self.piece_type),
    {
        match self.piece_type {
            PieceType::Empty => String::from_str("none"),
            PieceType::Pawn => String::from_str("pawn"),
            PieceType::Rook => String::from_str("rook"),
            PieceType::Knight => String::from_str("knight"),
            PieceType::Bishop => String::from_str("bishop"),
            PieceType::Queen => String::from_str("queen"),
            PieceType::King => String::from_str("king"),
        }
    }

    /// Whether this square holds no piece.
    pub fn is_empty(&self) -> (r: bool)
        ensures
            r == self.spec_is_empty(),
    {
        matches!(self.piece_type, PieceType::Empty)
    }

    /// Whether this piece is a pawn.
    pub fn is_pawn(&self) -> (r: bool)
        ensures
            r == (self.piece_type == PieceType::Pawn),
    {
        matches!(self.piece_type, PieceType::Pawn)
    }

    /// Whether this piece is a rook.
    pub fn is_rook(&self) -> (r: bool)
        ensures
            r == (self.piece_type == PieceType::Rook),
    {
        matches!(self.piece_type, PieceType::Rook)
    }

    /// Whether this piece is a king.
    pub fn is_king(&self) -> (r: bool)
        ensures
            r == (self.piece_type == PieceType::King),
    {
        matches!(self.piece_type, PieceType::King)
    }

    /// Sets the moved flag; once set it is never cleared.
    pub fn mark_moved(&mut self)
        ensures
            *final(self) == (ChessPiece { has_moved: true, ..*old(self) }),
    {
        self.has_moved = true;
    }

    /// Whether the piece has been moved since the game began.
    pub fn has_moved(&self) -> (r: bool)
        ensures
            r == self.has_moved,
    {
        self.has_moved
    }
}

} // verus!
