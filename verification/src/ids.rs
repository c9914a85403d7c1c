//! Identifiers of the game's textures, fonts, tile batches and sounds.

use vstd::prelude::*;

use crate::random::random_u32;
use crate::text::str_equals;
use crate::util::random_select;

verus! {

/// Width of the game window in pixels.
pub const WINDOW_SIZE_X: i16 = 1366;

/// Height of the game window in pixels.
pub const WINDOW_SIZE_Y: i16 = 768;

/// The textures that the game loads, in the order of the resource list;
/// `Unknown` closes the list and names no texture.
#[derive(Debug, Clone, Copy, Eq, PartialEq, Hash, Structural)]
pub enum TextureID {
    Ghost1,
    LotusPink,
    LotusBlue,
    LotusYellow,
    TextBackground,
    Paper1,
    Paper2,
    LargeBook1,
    LargeBook2,
    LargeBook3,
    MiddleBook1,
    MiddleBook2,
    MiddleBook3,
    Wood1,
    WafuTexture1,
    WafuTexture2,
    Chobo1,
    ChoicePanel1,
    ChoicePanel2,
    ChoicePanel3,
    ChoicePanel4,
    ChoicePanel5,
    JunkoTachieDefault,
    SightBackground1,
    ArrowRight,
    ArrowLeft,
    KosuzuDotFront1,
    KosuzuDotFront2,
    KosuzuDotFront3,
    KosuzuDotBack1,
    KosuzuDotBack2,
    KosuzuDotBack3,
    KosuzuDotRight1,
    KosuzuDotRight2,
    KosuzuDotRight3,
    KosuzuDotLeft1,
    KosuzuDotLeft2,
    KosuzuDotLeft3,
    StoreButton,
    ResetButton,
    MenuArt1,
    MenuArt2,
    JpHouseTexture,
    BookBoxFront,
    BookBoxBack,
    Paper3,
    Paper4,
    Paper5,
    Paper6,
    Paper7,
    Clock1,
    ClockNeedle1,
    ShortClockNeedle1,
    Hanko,
    NextLineIcon,
    LargeBookScratchFair1,
    LargeBookScratchFair2,
    LargeBookScratchFair3,
    LargeBookScratchFair4,
    LargeBookScratchBad1,
    LargeBookScratchBad2,
    LargeBookScratchBad3,
    LargeBookScratchBad4,
    ManualPageBookTitles,
    ManualPageBorrowingFlow,
    ManualPageReturnFlow,
    GoNextPageLeft,
    GoNextPageRight,
    Library,
    KosuzuTachie1,
    CheckCircle,
    MoneyBox,
    KosuzuSmile1,
    Coin100Yen,
    Coin50Yen,
    Coin500Yen,
    BaraBG,
    SuzunaanMap,
    Unknown,
}

/// Position of a texture in the resource list; `Unknown` stands right after
/// the last texture.
pub open spec fn texture_id_index(t: TextureID) -> int {
    match t {
        TextureID::Ghost1 => 0,
        TextureID::LotusPink => 1,
        TextureID::LotusBlue => 2,
        TextureID::LotusYellow => 3,
        TextureID::TextBackground => 4,
        TextureID::Paper1 => 5,
        TextureID::Paper2 => 6,
        TextureID::LargeBook1 => 7,
        TextureID::LargeBook2 => 8,
        TextureID::LargeBook3 => 9,
        TextureID::MiddleBook1 => 10,
        TextureID::MiddleBook2 => 11,
        TextureID::MiddleBook3 => 12,
        TextureID::Wood1 => 13,
        TextureID::WafuTexture1 => 14,
        TextureID::WafuTexture2 => 15,
        TextureID::Chobo1 => 16,
        TextureID::ChoicePanel1 => 17,
        TextureID::ChoicePanel2 => 18,
        TextureID::ChoicePanel3 => 19,
        TextureID::ChoicePanel4 => 20,
        TextureID::ChoicePanel5 => 21,
        TextureID::JunkoTachieDefault => 22,
        TextureID::SightBackground1 => 23,
        TextureID::ArrowRight => 24,
        TextureID::ArrowLeft => 25,
        TextureID::KosuzuDotFront1 => 26,
        TextureID::KosuzuDotFront2 => 27,
        TextureID::KosuzuDotFront3 => 28,
        TextureID::KosuzuDotBack1 => 29,
        TextureID::KosuzuDotBack2 => 30,
        TextureID::KosuzuDotBack3 => 31,
        TextureID::KosuzuDotRight1 => 32,
        TextureID::KosuzuDotRight2 => 33,
        TextureID::KosuzuDotRight3 => 34,
        TextureID::KosuzuDotLeft1 => 35,
        TextureID::KosuzuDotLeft2 => 36,
        TextureID::KosuzuDotLeft3 => 37,
        TextureID::StoreButton => 38,
        TextureID::ResetButton => 39,
        TextureID::MenuArt1 => 40,
        TextureID::MenuArt2 => 41,
        TextureID::JpHouseTexture => 42,
        TextureID::BookBoxFront => 43,
        TextureID::BookBoxBack => 44,
        TextureID::Paper3 => 45,
        TextureID::Paper4 => 46,
        TextureID::Paper5 => 47,
        TextureID::Paper6 => 48,
        TextureID::Paper7 => 49,
        TextureID::Clock1 => 50,
        TextureID::ClockNeedle1 => 51,
        TextureID::ShortClockNeedle1 => 52,
        TextureID::Hanko => 53,
        TextureID::NextLineIcon => 54,
        TextureID::LargeBookScratchFair1 => 55,
        TextureID::LargeBookScratchFair2 => 56,
        TextureID::LargeBookScratchFair3 => 57,
        TextureID::LargeBookScratchFair4 => 58,
        TextureID::LargeBookScratchBad1 => 59,
        TextureID::LargeBookScratchBad2 => 60,
        TextureID::LargeBookScratchBad3 => 61,
        TextureID::LargeBookScratchBad4 => 62,
        TextureID::ManualPageBookTitles => 63,
        TextureID::ManualPageBorrowingFlow => 64,
        TextureID::ManualPageReturnFlow => 65,
        TextureID::GoNextPageLeft => 66,
        TextureID::GoNextPageRight => 67,
        TextureID::Library => 68,
        TextureID::KosuzuTachie1 => 69,
        TextureID::CheckCircle => 70,
        TextureID::MoneyBox => 71,
        TextureID::KosuzuSmile1 => 72,
        TextureID::Coin100Yen => 73,
        TextureID::Coin50Yen => 74,
        TextureID::Coin500Yen => 75,
        TextureID::BaraBG => 76,
        TextureID::SuzunaanMap => 77,
        TextureID::Unknown => 78,
    }
}

/// The texture at position `n` of the resource list.
pub open spec fn texture_id_at(n: int) -> Option<TextureID> {
    if n == 0 {
        Some(TextureID::Ghost1)
    } else if n == 1 {
        Some(TextureID::LotusPink)
    } else if n == 2 {
        Some(TextureID::LotusBlue)
    } else if n == 3 {
        Some(TextureID::LotusYellow)
    } else if n == 4 {
        Some(TextureID::TextBackground)
    } else if n == 5 {
        Some(TextureID::Paper1)
    } else if n == 6 {
        Some(TextureID::Paper2)
    } else if n == 7 {
        Some(TextureID::LargeBook1)
    } else if n == 8 {
        Some(TextureID::LargeBook2)
    } else if n == 9 {
        Some(TextureID::LargeBook3)
    } else if n == 10 {
        Some(TextureID::MiddleBook1)
    } else if n == 11 {
        Some(TextureID::MiddleBook2)
    } else if n == 12 {
        Some(TextureID::MiddleBook3)
    } else if n == 13 {
        Some(TextureID::Wood1)
    } else if n == 14 {
        Some(TextureID::WafuTexture1)
    } else if n == 15 {
        Some(TextureID::WafuTexture2)
    } else if n == 16 {
        Some(TextureID::Chobo1)
    } else if n == 17 {
        Some(TextureID::ChoicePanel1)
    } else if n == 18 {
        Some(TextureID::ChoicePanel2)
    } else if n == 19 {
        Some(TextureID::ChoicePanel3)
    } else if n == 20 {
        Some(TextureID::ChoicePanel4)
    } else if n == 21 {
        Some(TextureID::ChoicePanel5)
    } else if n == 22 {
        Some(TextureID::JunkoTachieDefault)
    } else if n == 23 {
        Some(TextureID::SightBackground1)
    } else if n == 24 {
        Some(TextureID::ArrowRight)
    } else if n == 25 {
        Some(TextureID::ArrowLeft)
    } else if n == 26 {
        Some(TextureID::KosuzuDotFront1)
    } else if n == 27 {
        Some(TextureID::KosuzuDotFront2)
    } else if n == 28 {
        Some(TextureID::KosuzuDotFront3)
    } else if n == 29 {
        Some(TextureID::KosuzuDotBack1)
    } else if n == 30 {
        Some(TextureID::KosuzuDotBack2)
    } else if n == 31 {
        Some(TextureID::KosuzuDotBack3)
    } else if n == 32 {
        Some(TextureID::KosuzuDotRight1)
    } else if n == 33 {
        Some(TextureID::KosuzuDotRight2)
    } else if n == 34 {
        Some(TextureID::KosuzuDotRight3)
    } else if n == 35 {
        Some(TextureID::KosuzuDotLeft1)
    } else if n == 36 {
        Some(TextureID::KosuzuDotLeft2)
    } else if n == 37 {
        Some(TextureID::KosuzuDotLeft3)
    } else if n == 38 {
        Some(TextureID::StoreButton)
    } else if n == 39 {
        Some(TextureID::ResetButton)
    } else if n == 40 {
        Some(TextureID::MenuArt1)
    } else if n == 41 {
        Some(TextureID::MenuArt2)
    } else if n == 42 {
        Some(TextureID::JpHouseTexture)
    } else if n == 43 {
        Some(TextureID::BookBoxFront)
    } else if n == 44 {
        Some(TextureID::BookBoxBack)
    } else if n == 45 {
        Some(TextureID::Paper3)
    } else if n == 46 {
        Some(TextureID::Paper4)
    } else if n == 47 {
        Some(TextureID::Paper5)
    } else if n == 48 {
        Some(TextureID::Paper6)
    } else if n == 49 {
        Some(TextureID::Paper7)
    } else if n == 50 {
        Some(TextureID::Clock1)
    } else if n == 51 {
        Some(TextureID::ClockNeedle1)
    } else if n == 52 {
        Some(TextureID::ShortClockNeedle1)
    } else if n == 53 {
        Some(TextureID::Hanko)
    } else if n == 54 {
        Some(TextureID::NextLineIcon)
    } else if n == 55 {
        Some(TextureID::LargeBookScratchFair1)
    } else if n == 56 {
        Some(TextureID::LargeBookScratchFair2)
    } else if n == 57 {
        Some(TextureID::LargeBookScratchFair3)
    } else if n == 58 {
        Some(TextureID::LargeBookScratchFair4)
    } else if n == 59 {
        Some(TextureID::LargeBookScratchBad1)
    } else if n == 60 {
        Some(TextureID::LargeBookScratchBad2)
    } else if n == 61 {
        Some(TextureID::LargeBookScratchBad3)
    } else if n == 62 {
        Some(TextureID::LargeBookScratchBad4)
    } else if n == 63 {
        Some(TextureID::ManualPageBookTitles)
    } else if n == 64 {
        Some(TextureID::ManualPageBorrowingFlow)
    } else if n == 65 {
        Some(TextureID::ManualPageReturnFlow)
    } else if n == 66 {
        Some(TextureID::GoNextPageLeft)
    } else if n == 67 {
        Some(TextureID::GoNextPageRight)
    } else if n == 68 {
        Some(TextureID::Library)
    } else if n == 69 {
        Some(TextureID::KosuzuTachie1)
    } else if n == 70 {
        Some(TextureID::CheckCircle)
    } else if n == 71 {
        Some(TextureID::MoneyBox)
    } else if n == 72 {
        Some(TextureID::KosuzuSmile1)
    } else if n == 73 {
        Some(TextureID::Coin100Yen)
    } else if n == 74 {
        Some(TextureID::Coin50Yen)
    } else if n == 75 {
        Some(TextureID::Coin500Yen)
    } else if n == 76 {
        Some(TextureID::BaraBG)
    } else if n == 77 {
        Some(TextureID::SuzunaanMap)
    } else {
        None
    }
}

/// The name of a texture, as its variant is written.
pub open spec fn texture_name(t: TextureID) -> Seq<char> {
    match t {
        TextureID::Ghost1 => "Ghost1"@,
        TextureID::LotusPink => "LotusPink"@,
        TextureID::LotusBlue => "LotusBlue"@,
        TextureID::LotusYellow => "LotusYellow"@,
        TextureID::TextBackground => "TextBackground"@,
        TextureID::Paper1 => "Paper1"@,
        TextureID::Paper2 => "Paper2"@,
        TextureID::LargeBook1 => "LargeBook1"@,
        TextureID::LargeBook2 => "LargeBook2"@,
        TextureID::LargeBook3 => "LargeBook3"@,
        TextureID::MiddleBook1 => "MiddleBook1"@,
        TextureID::MiddleBook2 => "MiddleBook2"@,
        TextureID::MiddleBook3 => "MiddleBook3"@,
        TextureID::Wood1 => "Wood1"@,
        TextureID::WafuTexture1 => "WafuTexture1"@,
        TextureID::WafuTexture2 => "WafuTexture2"@,
        TextureID::Chobo1 => "Chobo1"@,
        TextureID::ChoicePanel1 => "ChoicePanel1"@,
        TextureID::ChoicePanel2 => "ChoicePanel2"@,
        TextureID::ChoicePanel3 => "ChoicePanel3"@,
        TextureID::ChoicePanel4 => "ChoicePanel4"@,
        TextureID::ChoicePanel5 => "ChoicePanel5"@,
        TextureID::JunkoTachieDefault => "JunkoTachieDefault"@,
        TextureID::SightBackground1 => "SightBackground1"@,
        TextureID::ArrowRight => "ArrowRight"@,
        TextureID::ArrowLeft => "ArrowLeft"@,
        TextureID::KosuzuDotFront1 => "KosuzuDotFront1"@,
        TextureID::KosuzuDotFront2 => "KosuzuDotFront2"@,
        TextureID::KosuzuDotFront3 => "KosuzuDotFront3"@,
        TextureID::KosuzuDotBack1 => "KosuzuDotBack1"@,
        TextureID::KosuzuDotBack2 => "KosuzuDotBack2"@,
        TextureID::KosuzuDotBack3 => "KosuzuDotBack3"@,
        TextureID::KosuzuDotRight1 => "KosuzuDotRight1"@,
        TextureID::KosuzuDotRight2 => "KosuzuDotRight2"@,
        TextureID::KosuzuDotRight3 => "KosuzuDotRight3"@,
        TextureID::KosuzuDotLeft1 => "KosuzuDotLeft1"@,
        TextureID::KosuzuDotLeft2 => "KosuzuDotLeft2"@,
        TextureID::KosuzuDotLeft3 => "KosuzuDotLeft3"@,
        TextureID::StoreButton => "StoreButton"@,
        TextureID::ResetButton => "ResetButton"@,
        TextureID::MenuArt1 => "MenuArt1"@,
        TextureID::MenuArt2 => "MenuArt2"@,
        TextureID::JpHouseTexture => "JpHouseTexture"@,
        TextureID::BookBoxFront => "BookBoxFront"@,
        TextureID::BookBoxBack => "BookBoxBack"@,
        TextureID::Paper3 => "Paper3"@,
        TextureID::Paper4 => "Paper4"@,
        TextureID::Paper5 => "Paper5"@,
        TextureID::Paper6 => "Paper6"@,
        TextureID::Paper7 => "Paper7"@,
        TextureID::Clock1 => "Clock1"@,
        TextureID::ClockNeedle1 => "ClockNeedle1"@,
        TextureID::ShortClockNeedle1 => "ShortClockNeedle1"@,
        TextureID::Hanko => "Hanko"@,
        TextureID::NextLineIcon => "NextLineIcon"@,
        TextureID::LargeBookScratchFair1 => "LargeBookScratchFair1"@,
        TextureID::LargeBookScratchFair2 => "LargeBookScratchFair2"@,
        TextureID::LargeBookScratchFair3 => "LargeBookScratchFair3"@,
        TextureID::LargeBookScratchFair4 => "LargeBookScratchFair4"@,
        TextureID::LargeBookScratchBad1 => "LargeBookScratchBad1"@,
        TextureID::LargeBookScratchBad2 => "LargeBookScratchBad2"@,
        TextureID::LargeBookScratchBad3 => "LargeBookScratchBad3"@,
        TextureID::LargeBookScratchBad4 => "LargeBookScratchBad4"@,
        TextureID::ManualPageBookTitles => "ManualPageBookTitles"@,
        TextureID::ManualPageBorrowingFlow => "ManualPageBorrowingFlow"@,
        TextureID::ManualPageReturnFlow => "ManualPageReturnFlow"@,
        TextureID::GoNextPageLeft => "GoNextPageLeft"@,
        TextureID::GoNextPageRight => "GoNextPageRight"@,
        TextureID::Library => "Library"@,
        TextureID::KosuzuTachie1 => "KosuzuTachie1"@,
        TextureID::CheckCircle => "CheckCircle"@,
        TextureID::MoneyBox => "MoneyBox"@,
        TextureID::KosuzuSmile1 => "KosuzuSmile1"@,
        TextureID::Coin100Yen => "Coin100Yen"@,
        TextureID::Coin50Yen => "Coin50Yen"@,
        TextureID::Coin500Yen => "Coin500Yen"@,
        TextureID::BaraBG => "BaraBG"@,
        TextureID::SuzunaanMap => "SuzunaanMap"@,
        TextureID::Unknown => "Unknown"@,
    }
}


/// The texture whose name in the resource files is `s`.
pub open spec fn texture_id_named(s: Seq<char>) -> Option<TextureID> {
    if s == "Ghost1"@ {
        Some(TextureID::Ghost1)
    } else if s == "LotusPink"@ {
        Some(TextureID::LotusPink)
    } else if s == "LotusBlue"@ {
        Some(TextureID::LotusBlue)
    } else if s == "LotusYellow"@ {
        Some(TextureID::LotusYellow)
    } else if s == "TextBackground"@ {
        Some(TextureID::TextBackground)
    } else if s == "Paper1"@ {
        Some(TextureID::Paper1)
    } else if s == "Paper2"@ {
        Some(TextureID::Paper2)
    } else if s == "LargeBook1"@ {
        Some(TextureID::LargeBook1)
    } else if s == "LargeBook2"@ {
        Some(TextureID::LargeBook2)
    } else if s == "LargeBook3"@ {
        Some(TextureID::LargeBook3)
    } else if s == "MiddleBook1"@ {
        Some(TextureID::MiddleBook1)
    } else if s == "MiddleBook2"@ {
        Some(TextureID::MiddleBook2)
    } else if s == "MiddleBook3"@ {
        Some(TextureID::MiddleBook3)
    } else if s == "Wood1"@ {
        Some(TextureID::Wood1)
    } else if s == "WafuTexture1"@ {
        Some(TextureID::WafuTexture1)
    } else if s == "WafuTexture2"@ {
        Some(TextureID::WafuTexture2)
    } else if s == "Chobo1"@ {
        Some(TextureID::Chobo1)
    } else if s == "ChoicePanel1"@ {
        Some(TextureID::ChoicePanel1)
    } else if s == "ChoicePanel2"@ {
        Some(TextureID::ChoicePanel2)
    } else if s == "ChoicePanel3"@ {
        Some(TextureID::ChoicePanel3)
    } else if s == "ChoicePanel4"@ {
        Some(TextureID::ChoicePanel4)
    } else if s == "ChoicePanel5"@ {
        Some(TextureID::ChoicePanel5)
    } else if s == "JunkoTachieDefault"@ {
        Some(TextureID::JunkoTachieDefault)
    } else if s == "SightBackground1"@ {
        Some(TextureID::SightBackground1)
    } else if s == "ArrowRight"@ {
        Some(TextureID::ArrowRight)
    } else if s == "ArrowLeft"@ {
        Some(TextureID::ArrowLeft)
    } else if s == "KosuzuDotFront1"@ {
        Some(TextureID::KosuzuDotFront1)
    } else if s == "KosuzuDotFront2"@ {
        Some(TextureID::KosuzuDotFront2)
    } else if s == "KosuzuDotFront3"@ {
        Some(TextureID::KosuzuDotFront3)
    } else if s == "KosuzuDotBack1"@ {
        Some(TextureID::KosuzuDotBack1)
    } else if s == "KosuzuDotBack2"@ {
        Some(TextureID::KosuzuDotBack2)
    } else if s == "KosuzuDotBack3"@ {
        Some(TextureID::KosuzuDotBack3)
    } else if s == "KosuzuDotRight1"@ {
        Some(TextureID::KosuzuDotRight1)
    } else if s == "KosuzuDotRight2"@ {
        Some(TextureID::KosuzuDotRight2)
    } else if s == "KosuzuDotRight3"@ {
        Some(TextureID::KosuzuDotRight3)
    } else if s == "KosuzuDotLeft1"@ {
        Some(TextureID::KosuzuDotLeft1)
    } else if s == "KosuzuDotLeft2"@ {
        Some(TextureID::KosuzuDotLeft2)
    } else if s == "KosuzuDotLeft3"@ {
        Some(TextureID::KosuzuDotLeft3)
    } else if s == "StoreButton"@ {
        Some(TextureID::StoreButton)
    } else if s == "ResetButton"@ {
        Some(TextureID::ResetButton)
    } else if s == "MenuArt1"@ {
        Some(TextureID::MenuArt1)
    } else if s == "MenuArt2"@ {
        Some(TextureID::MenuArt2)
    } else if s == "JpHouseTexture"@ {
        Some(TextureID::JpHouseTexture)
    } else if s == "BookBoxFront"@ {
        Some(TextureID::BookBoxFront)
    } else if s == "BookBoxBack"@ {
        Some(TextureID::BookBoxBack)
    } else if s == "Paper3"@ {
        Some(TextureID::Paper3)
    } else if s == "Paper4"@ {
        Some(TextureID::Paper4)
    } else if s == "Paper5"@ {
        Some(TextureID::Paper5)
    } else if s == "Paper6"@ {
        Some(TextureID::Paper6)
    } else if s == "Paper7"@ {
        Some(TextureID::Paper7)
    } else if s == "Clock1"@ {
        Some(TextureID::Clock1)
    } else if s == "ClockNeedle1"@ {
        Some(TextureID::ClockNeedle1)
    } else if s == "ShortClockNeedle1"@ {
        Some(TextureID::ShortClockNeedle1)
    } else if s == "Hanko"@ {
        Some(TextureID::Hanko)
    } else if s == "NextLineIcon"@ {
        Some(TextureID::NextLineIcon)
    } else if s == "LargeBookScratchFair1"@ {
        Some(TextureID::LargeBookScratchFair1)
    } else if s == "LargeBookScratchFair2"@ {
        Some(TextureID::LargeBookScratchFair2)
    } else if s == "LargeBookScratchFair3"@ {
        Some(TextureID::LargeBookScratchFair3)
    } else if s == "LargeBookScratchFair4"@ {
        Some(TextureID::LargeBookScratchFair4)
    } else if s == "LargeBookScratchBad1"@ {
        Some(TextureID::LargeBookScratchBad1)
    } else if s == "LargeBookScratchBad2"@ {
        Some(TextureID::LargeBookScratchBad2)
    } else if s == "LargeBookScratchBad3"@ {
        Some(TextureID::LargeBookScratchBad3)
    } else if s == "LargeBookScratchBad4"@ {
        Some(TextureID::LargeBookScratchBad4)
    } else if s == "ManualPageBookTitles"@ {
        Some(TextureID::ManualPageBookTitles)
    } else if s == "ManualPageBorrowingFlow"@ {
        Some(TextureID::ManualPageBorrowingFlow)
    } else if s == "ManualPageReturnFlow"@ {
        Some(TextureID::ManualPageReturnFlow)
    } else if s == "GoNextPageLeft"@ {
        Some(TextureID::GoNextPageLeft)
    } else if s == "GoNextPageRight"@ {
        Some(TextureID::GoNextPageRight)
    } else if s == "Library"@ {
        Some(TextureID::Library)
    } else if s == "KosuzuTachie1"@ {
        Some(TextureID::KosuzuTachie1)
    } else if s == "CheckCircle"@ {
        Some(TextureID::CheckCircle)
    } else if s == "MoneyBox"@ {
        Some(TextureID::MoneyBox)
    } else if s == "KosuzuSmile1"@ {
        Some(TextureID::KosuzuSmile1)
    } else if s == "Coin100Yen"@ {
        Some(TextureID::Coin100Yen)
    } else if s == "Coin50Yen"@ {
        Some(TextureID::Coin50Yen)
    } else if s == "Coin500Yen"@ {
        Some(TextureID::Coin500Yen)
    } else if s == "BaraBG"@ {
        Some(TextureID::BaraBG)
    } else if s == "SuzunaanMap"@ {
        Some(TextureID::SuzunaanMap)
    } else {
        None
    }
}

proof fn lemma_texture_names_0_10(t: TextureID)
    requires
        0 <= texture_id_index(t) < 10,
    ensures
        texture_id_named(texture_name(t)) == Some(t),
{
    reveal_strlit("Ghost1");
    reveal_strlit("LotusPink");
    reveal_strlit("LotusBlue");
    reveal_strlit("LotusYellow");
    reveal_strlit("TextBackground");
    reveal_strlit("Paper1");
    reveal_strlit("Paper2");
    reveal_strlit("LargeBook1");
    reveal_strlit("LargeBook2");
    reveal_strlit("LargeBook3");
    assert("Ghost1"@.len() == 6);
    assert("LotusPink"@.len() == 9);
    assert("LotusBlue"@.len() == 9);
    assert("LotusYellow"@.len() == 11);
    assert("TextBackground"@.len() == 14);
    assert("Paper1"@.len() == 6);
    assert("Paper2"@.len() == 6);
    assert("LargeBook1"@.len() == 10);
    assert("LargeBook2"@.len() == 10);
    assert("LargeBook3"@.len() == 10);
    assert("Ghost1"@[0] == 'G');
    assert("LargeBook1"@[9] == '1');
    assert("LargeBook2"@[9] == '2');
    assert("LargeBook3"@[9] == '3');
    assert("LotusBlue"@[5] == 'B');
    assert("LotusPink"@[5] == 'P');
    assert("Paper1"@[0] == 'P');
    assert("Paper1"@[5] == '1');
    assert("Paper2"@[0] == 'P');
    assert("Paper2"@[5] == '2');
    match t {
        TextureID::Ghost1 => assert(texture_id_named("Ghost1"@) == Some(TextureID::Ghost1)),
        TextureID::LotusPink => assert(texture_id_named("LotusPink"@) == Some(TextureID::LotusPink)),
        TextureID::LotusBlue => assert(texture_id_named("LotusBlue"@) == Some(TextureID::LotusBlue)),
        TextureID::LotusYellow => assert(texture_id_named("LotusYellow"@) == Some(TextureID::LotusYellow)),
        TextureID::TextBackground => assert(texture_id_named("TextBackground"@) == Some(TextureID::TextBackground)),
        TextureID::Paper1 => assert(texture_id_named("Paper1"@) == Some(TextureID::Paper1)),
        TextureID::Paper2 => assert(texture_id_named("Paper2"@) == Some(TextureID::Paper2)),
        TextureID::LargeBook1 => assert(texture_id_named("LargeBook1"@) == Some(TextureID::LargeBook1)),
        TextureID::LargeBook2 => assert(texture_id_named("LargeBook2"@) == Some(TextureID::LargeBook2)),
        TextureID::LargeBook3 => assert(texture_id_named("LargeBook3"@) == Some(TextureID::LargeBook3)),
        _ => {},
    }
}

proof fn lemma_texture_names_10_20(t: TextureID)
    requires
        10 <= texture_id_index(t) < 20,
    ensures
        texture_id_named(texture_name(t)) == Some(t),
{
    reveal_strlit("Ghost1");
    reveal_strlit("LotusPink");
    reveal_strlit("LotusBlue");
    reveal_strlit("LotusYellow");
    reveal_strlit("TextBackground");
    reveal_strlit("Paper1");
    reveal_strlit("Paper2");
    reveal_strlit("LargeBook1");
    reveal_strlit("LargeBook2");
    reveal_strlit("LargeBook3");
    reveal_strlit("MiddleBook1");
    reveal_strlit("MiddleBook2");
    reveal_strlit("MiddleBook3");
    reveal_strlit("Wood1");
    reveal_strlit("WafuTexture1");
    reveal_strlit("WafuTexture2");
    reveal_strlit("Chobo1");
    reveal_strlit("ChoicePanel1");
    reveal_strlit("ChoicePanel2");
    reveal_strlit("ChoicePanel3");
    assert("Ghost1"@.len() == 6);
    assert("LotusPink"@.len() == 9);
    assert("LotusBlue"@.len() == 9);
    assert("LotusYellow"@.len() == 11);
    assert("TextBackground"@.len() == 14);
    assert("Paper1"@.len() == 6);
    assert("Paper2"@.len() == 6);
    assert("LargeBook1"@.len() == 10);
    assert("LargeBook2"@.len() == 10);
    assert("LargeBook3"@.len() == 10);
    assert("MiddleBook1"@.len() == 11);
    assert("MiddleBook2"@.len() == 11);
    assert("MiddleBook3"@.len() == 11);
    assert("Wood1"@.len() == 5);
    assert("WafuTexture1"@.len() == 12);
    assert("WafuTexture2"@.len() == 12);
    assert("Chobo1"@.len() == 6);
    assert("ChoicePanel1"@.len() == 12);
    assert("ChoicePanel2"@.len() == 12);
    assert("ChoicePanel3"@.len() == 12);
    assert("Chobo1"@[0] == 'C');
    assert("ChoicePanel1"@[0] == 'C');
    assert("ChoicePanel1"@[11] == '1');
    assert("ChoicePanel2"@[0] == 'C');
    assert("ChoicePanel2"@[11] == '2');
    assert("ChoicePanel3"@[0] == 'C');
    assert("ChoicePanel3"@[11] == '3');
    assert("Ghost1"@[0] == 'G');
    assert("LotusYellow"@[0] == 'L');
    assert("MiddleBook1"@[0] == 'M');
    assert("MiddleBook1"@[10] == '1');
    assert("MiddleBook2"@[0] == 'M');
    assert("MiddleBook2"@[10] == '2');
    assert("MiddleBook3"@[0] == 'M');
    assert("MiddleBook3"@[10] == '3');
    assert("Paper1"@[0] == 'P');
    assert("Paper2"@[0] == 'P');
    assert("WafuTexture1"@[0] == 'W');
    assert("WafuTexture1"@[11] == '1');
    assert("WafuTexture2"@[0] == 'W');
    assert("WafuTexture2"@[11] == '2');
    match t {
        TextureID::MiddleBook1 => assert(texture_id_named("MiddleBook1"@) == Some(TextureID::MiddleBook1)),
        TextureID::MiddleBook2 => assert(texture_id_named("MiddleBook2"@) == Some(TextureID::MiddleBook2)),
        TextureID::MiddleBook3 => assert(texture_id_named("MiddleBook3"@) == Some(TextureID::MiddleBook3)),
        TextureID::Wood1 => assert(texture_id_named("Wood1"@) == Some(TextureID::Wood1)),
        TextureID::WafuTexture1 => assert(texture_id_named("WafuTexture1"@) == Some(TextureID::WafuTexture1)),
        TextureID::WafuTexture2 => assert(texture_id_named("WafuTexture2"@) == Some(TextureID::WafuTexture2)),
        TextureID::Chobo1 => assert(texture_id_named("Chobo1"@) == Some(TextureID::Chobo1)),
        TextureID::ChoicePanel1 => assert(texture_id_named("ChoicePanel1"@) == Some(TextureID::ChoicePanel1)),
        TextureID::ChoicePanel2 => assert(texture_id_named("ChoicePanel2"@) == Some(TextureID::ChoicePanel2)),
        TextureID::ChoicePanel3 => assert(texture_id_named("ChoicePanel3"@) == Some(TextureID::ChoicePanel3)),
        _ => {},
    }
}

proof fn lemma_texture_names_20_30(t: TextureID)
    requires
        20 <= texture_id_index(t) < 30,
    ensures
        texture_id_named(texture_name(t)) == Some(t),
{
    reveal_strlit("Ghost1");
    reveal_strlit("LotusPink");
    reveal_strlit("LotusBlue");
    reveal_strlit("LotusYellow");
    reveal_strlit("TextBackground");
    reveal_strlit("Paper1");
    reveal_strlit("Paper2");
    reveal_strlit("LargeBook1");
    reveal_strlit("LargeBook2");
    reveal_strlit("LargeBook3");
    reveal_strlit("MiddleBook1");
    reveal_strlit("MiddleBook2");
    reveal_strlit("MiddleBook3");
    reveal_strlit("Wood1");
    reveal_strlit("WafuTexture1");
    reveal_strlit("WafuTexture2");
    reveal_strlit("Chobo1");
    reveal_strlit("ChoicePanel1");
    reveal_strlit("ChoicePanel2");
    reveal_strlit("ChoicePanel3");
    reveal_strlit("ChoicePanel4");
    reveal_strlit("ChoicePanel5");
    reveal_strlit("JunkoTachieDefault");
    reveal_strlit("SightBackground1");
    reveal_strlit("ArrowRight");
    reveal_strlit("ArrowLeft");
    reveal_strlit("KosuzuDotFront1");
    reveal_strlit("KosuzuDotFront2");
    reveal_strlit("KosuzuDotFront3");
    reveal_strlit("KosuzuDotBack1");
    assert("Ghost1"@.len() == 6);
    assert("LotusPink"@.len() == 9);
    assert("LotusBlue"@.len() == 9);
    assert("LotusYellow"@.len() == 11);
    assert("TextBackground"@.len() == 14);
    assert("Paper1"@.len() == 6);
    assert("Paper2"@.len() == 6);
    assert("LargeBook1"@.len() == 10);
    assert("LargeBook2"@.len() == 10);
    assert("LargeBook3"@.len() == 10);
    assert("MiddleBook1"@.len() == 11);
    assert("MiddleBook2"@.len() == 11);
    assert("MiddleBook3"@.len() == 11);
    assert("Wood1"@.len() == 5);
    assert("WafuTexture1"@.len() == 12);
    assert("WafuTexture2"@.len() == 12);
    assert("Chobo1"@.len() == 6);
    assert("ChoicePanel1"@.len() == 12);
    assert("ChoicePanel2"@.len() == 12);
    assert("ChoicePanel3"@.len() == 12);
    assert("ChoicePanel4"@.len() == 12);
    assert("ChoicePanel5"@.len() == 12);
    assert("JunkoTachieDefault"@.len() == 18);
    assert("SightBackground1"@.len() == 16);
    assert("ArrowRight"@.len() == 10);
    assert("ArrowLeft"@.len() == 9);
    assert("KosuzuDotFront1"@.len() == 15);
    assert("KosuzuDotFront2"@.len() == 15);
    assert("KosuzuDotFront3"@.len() == 15);
    assert("KosuzuDotBack1"@.len() == 14);
    assert("ArrowLeft"@[0] == 'A');
    assert("ArrowRight"@[0] == 'A');
    assert("ChoicePanel1"@[11] == '1');
    assert("ChoicePanel2"@[11] == '2');
    assert("ChoicePanel3"@[11] == '3');
    assert("ChoicePanel4"@[0] == 'C');
    assert("ChoicePanel4"@[11] == '4');
    assert("ChoicePanel5"@[0] == 'C');
    assert("ChoicePanel5"@[11] == '5');
    assert("KosuzuDotBack1"@[0] == 'K');
    assert("KosuzuDotFront1"@[14] == '1');
    assert("KosuzuDotFront2"@[14] == '2');
    assert("KosuzuDotFront3"@[14] == '3');
    assert("LargeBook1"@[0] == 'L');
    assert("LargeBook2"@[0] == 'L');
    assert("LargeBook3"@[0] == 'L');
    assert("LotusBlue"@[0] == 'L');
    assert("LotusPink"@[0] == 'L');
    assert("TextBackground"@[0] == 'T');
    assert("WafuTexture1"@[0] == 'W');
    assert("WafuTexture2"@[0] == 'W');
    match t {
        TextureID::ChoicePanel4 => assert(texture_id_named("ChoicePanel4"@) == Some(TextureID::ChoicePanel4)),
        TextureID::ChoicePanel5 => assert(texture_id_named("ChoicePanel5"@) == Some(TextureID::ChoicePanel5)),
        TextureID::JunkoTachieDefault => assert(texture_id_named("JunkoTachieDefault"@) == Some(TextureID::JunkoTachieDefault)),
        TextureID::SightBackground1 => assert(texture_id_named("SightBackground1"@) == Some(TextureID::SightBackground1)),
        TextureID::ArrowRight => assert(texture_id_named("ArrowRight"@) == Some(TextureID::ArrowRight)),
        TextureID::ArrowLeft => assert(texture_id_named("ArrowLeft"@) == Some(TextureID::ArrowLeft)),
        TextureID::KosuzuDotFront1 => assert(texture_id_named("KosuzuDotFront1"@) == Some(TextureID::KosuzuDotFront1)),
        TextureID::KosuzuDotFront2 => assert(texture_id_named("KosuzuDotFront2"@) == Some(TextureID::KosuzuDotFront2)),
        TextureID::KosuzuDotFront3 => assert(texture_id_named("KosuzuDotFront3"@) == Some(TextureID::KosuzuDotFront3)),
        TextureID::KosuzuDotBack1 => assert(texture_id_named("KosuzuDotBack1"@) == Some(TextureID::KosuzuDotBack1)),
        _ => {},
    }
}

proof fn lemma_texture_names_30_40(t: TextureID)
    requires
        30 <= texture_id_index(t) < 40,
    ensures
        texture_id_named(texture_name(t)) == Some(t),
{
    reveal_strlit("Ghost1");
    reveal_strlit("LotusPink");
    reveal_strlit("LotusBlue");
    reveal_strlit("LotusYellow");
    reveal_strlit("TextBackground");
    reveal_strlit("Paper1");
    reveal_strlit("Paper2");
    reveal_strlit("LargeBook1");
    reveal_strlit("LargeBook2");
    reveal_strlit("LargeBook3");
    reveal_strlit("MiddleBook1");
    reveal_strlit("MiddleBook2");
    reveal_strlit("MiddleBook3");
    reveal_strlit("Wood1");
    reveal_strlit("WafuTexture1");
    reveal_strlit("WafuTexture2");
    reveal_strlit("Chobo1");
    reveal_strlit("ChoicePanel1");
    reveal_strlit("ChoicePanel2");
    reveal_strlit("ChoicePanel3");
    reveal_strlit("ChoicePanel4");
    reveal_strlit("ChoicePanel5");
    reveal_strlit("JunkoTachieDefault");
    reveal_strlit("SightBackground1");
    reveal_strlit("ArrowRight");
    reveal_strlit("ArrowLeft");
    reveal_strlit("KosuzuDotFront1");
    reveal_strlit("KosuzuDotFront2");
    reveal_strlit("KosuzuDotFront3");
    reveal_strlit("KosuzuDotBack1");
    reveal_strlit("KosuzuDotBack2");
    reveal_strlit("KosuzuDotBack3");
    reveal_strlit("KosuzuDotRight1");
    reveal_strlit("KosuzuDotRight2");
    reveal_strlit("KosuzuDotRight3");
    reveal_strlit("KosuzuDotLeft1");
    reveal_strlit("KosuzuDotLeft2");
    reveal_strlit("KosuzuDotLeft3");
    reveal_strlit("StoreButton");
    reveal_strlit("ResetButton");
    assert("Ghost1"@.len() == 6);
    assert("LotusPink"@.len() == 9);
    assert("LotusBlue"@.len() == 9);
    assert("LotusYellow"@.len() == 11);
    assert("TextBackground"@.len() == 14);
    assert("Paper1"@.len() == 6);
    assert("Paper2"@.len() == 6);
    assert("LargeBook1"@.len() == 10);
    assert("LargeBook2"@.len() == 10);
    assert("LargeBook3"@.len() == 10);
    assert("MiddleBook1"@.len() == 11);
    assert("MiddleBook2"@.len() == 11);
    assert("MiddleBook3"@.len() == 11);
    assert("Wood1"@.len() == 5);
    assert("WafuTexture1"@.len() == 12);
    assert("WafuTexture2"@.len() == 12);
    assert("Chobo1"@.len() == 6);
    assert("ChoicePanel1"@.len() == 12);
    assert("ChoicePanel2"@.len() == 12);
    assert("ChoicePanel3"@.len() == 12);
    assert("ChoicePanel4"@.len() == 12);
    assert("ChoicePanel5"@.len() == 12);
    assert("JunkoTachieDefault"@.len() == 18);
    assert("SightBackground1"@.len() == 16);
    assert("ArrowRight"@.len() == 10);
    assert("ArrowLeft"@.len() == 9);
    assert("KosuzuDotFront1"@.len() == 15);
    assert("KosuzuDotFront2"@.len() == 15);
    assert("KosuzuDotFront3"@.len() == 15);
    assert("KosuzuDotBack1"@.len() == 14);
    assert("KosuzuDotBack2"@.len() == 14);
    assert("KosuzuDotBack3"@.len() == 14);
    assert("KosuzuDotRight1"@.len() == 15);
    assert("KosuzuDotRight2"@.len() == 15);
    assert("KosuzuDotRight3"@.len() == 15);
    assert("KosuzuDotLeft1"@.len() == 14);
    assert("KosuzuDotLeft2"@.len() == 14);
    assert("KosuzuDotLeft3"@.len() == 14);
    assert("StoreButton"@.len() == 11);
    assert("ResetButton"@.len() == 11);
    assert("KosuzuDotBack1"@[9] == 'B');
    assert("KosuzuDotBack1"@[13] == '1');
    assert("KosuzuDotBack2"@[0] == 'K');
    assert("KosuzuDotBack2"@[9] == 'B');
    assert("KosuzuDotBack2"@[13] == '2');
    assert("KosuzuDotBack3"@[0] == 'K');
    assert("KosuzuDotBack3"@[9] == 'B');
    assert("KosuzuDotBack3"@[13] == '3');
    assert("KosuzuDotFront1"@[9] == 'F');
    assert("KosuzuDotFront2"@[9] == 'F');
    assert("KosuzuDotFront3"@[9] == 'F');
    assert("KosuzuDotLeft1"@[0] == 'K');
    assert("KosuzuDotLeft1"@[9] == 'L');
    assert("KosuzuDotLeft1"@[13] == '1');
    assert("KosuzuDotLeft2"@[0] == 'K');
    assert("KosuzuDotLeft2"@[9] == 'L');
    assert("KosuzuDotLeft2"@[13] == '2');
    assert("KosuzuDotLeft3"@[0] == 'K');
    assert("KosuzuDotLeft3"@[9] == 'L');
    assert("KosuzuDotLeft3"@[13] == '3');
    assert("KosuzuDotRight1"@[9] == 'R');
    assert("KosuzuDotRight1"@[14] == '1');
    assert("KosuzuDotRight2"@[9] == 'R');
    assert("KosuzuDotRight2"@[14] == '2');
    assert("KosuzuDotRight3"@[9] == 'R');
    assert("KosuzuDotRight3"@[14] == '3');
    assert("LotusYellow"@[0] == 'L');
    assert("MiddleBook1"@[0] == 'M');
    assert("MiddleBook2"@[0] == 'M');
    assert("MiddleBook3"@[0] == 'M');
    assert("ResetButton"@[0] == 'R');
    assert("StoreButton"@[0] == 'S');
    assert("TextBackground"@[0] == 'T');
    match t {
        TextureID::KosuzuDotBack2 => assert(texture_id_named("KosuzuDotBack2"@) == Some(TextureID::KosuzuDotBack2)),
        TextureID::KosuzuDotBack3 => assert(texture_id_named("KosuzuDotBack3"@) == Some(TextureID::KosuzuDotBack3)),
        TextureID::KosuzuDotRight1 => assert(texture_id_named("KosuzuDotRight1"@) == Some(TextureID::KosuzuDotRight1)),
        TextureID::KosuzuDotRight2 => assert(texture_id_named("KosuzuDotRight2"@) == Some(TextureID::KosuzuDotRight2)),
        TextureID::KosuzuDotRight3 => assert(texture_id_named("KosuzuDotRight3"@) == Some(TextureID::KosuzuDotRight3)),
        TextureID::KosuzuDotLeft1 => assert(texture_id_named("KosuzuDotLeft1"@) == Some(TextureID::KosuzuDotLeft1)),
        TextureID::KosuzuDotLeft2 => assert(texture_id_named("KosuzuDotLeft2"@) == Some(TextureID::KosuzuDotLeft2)),
        TextureID::KosuzuDotLeft3 => assert(texture_id_named("KosuzuDotLeft3"@) == Some(TextureID::KosuzuDotLeft3)),
        TextureID::StoreButton => assert(texture_id_named("StoreButton"@) == Some(TextureID::StoreButton)),
        TextureID::ResetButton => assert(texture_id_named("ResetButton"@) == Some(TextureID::ResetButton)),
        _ => {},
    }
}

proof fn lemma_texture_names_40_50(t: TextureID)
    requires
        40 <= texture_id_index(t) < 50,
    ensures
        texture_id_named(texture_name(t)) == Some(t),
{
    reveal_strlit("Ghost1");
    reveal_strlit("LotusPink");
    reveal_strlit("LotusBlue");
    reveal_strlit("LotusYellow");
    reveal_strlit("TextBackground");
    reveal_strlit("Paper1");
    reveal_strlit("Paper2");
    reveal_strlit("LargeBook1");
    reveal_strlit("LargeBook2");
    reveal_strlit("LargeBook3");
    reveal_strlit("MiddleBook1");
    reveal_strlit("MiddleBook2");
    reveal_strlit("MiddleBook3");
    reveal_strlit("Wood1");
    reveal_strlit("WafuTexture1");
    reveal_strlit("WafuTexture2");
    reveal_strlit("Chobo1");
    reveal_strlit("ChoicePanel1");
    reveal_strlit("ChoicePanel2");
    reveal_strlit("ChoicePanel3");
    reveal_strlit("ChoicePanel4");
    reveal_strlit("ChoicePanel5");
    reveal_strlit("JunkoTachieDefault");
    reveal_strlit("SightBackground1");
    reveal_strlit("ArrowRight");
    reveal_strlit("ArrowLeft");
    reveal_strlit("KosuzuDotFront1");
    reveal_strlit("KosuzuDotFront2");
    reveal_strlit("KosuzuDotFront3");
    reveal_strlit("KosuzuDotBack1");
    reveal_strlit("KosuzuDotBack2");
    reveal_strlit("KosuzuDotBack3");
    reveal_strlit("KosuzuDotRight1");
    reveal_strlit("KosuzuDotRight2");
    reveal_strlit("KosuzuDotRight3");
    reveal_strlit("KosuzuDotLeft1");
    reveal_strlit("KosuzuDotLeft2");
    reveal_strlit("KosuzuDotLeft3");
    reveal_strlit("StoreButton");
    reveal_strlit("ResetButton");
    reveal_strlit("MenuArt1");
    reveal_strlit("MenuArt2");
    reveal_strlit("JpHouseTexture");
    reveal_strlit("BookBoxFront");
    reveal_strlit("BookBoxBack");
    reveal_strlit("Paper3");
    reveal_strlit("Paper4");
    reveal_strlit("Paper5");
    reveal_strlit("Paper6");
    reveal_strlit("Paper7");
    assert("Ghost1"@.len() == 6);
    assert("LotusPink"@.len() == 9);
    assert("LotusBlue"@.len() == 9);
    assert("LotusYellow"@.len() == 11);
    assert("TextBackground"@.len() == 14);
    assert("Paper1"@.len() == 6);
    assert("Paper2"@.len() == 6);
    assert("LargeBook1"@.len() == 10);
    assert("LargeBook2"@.len() == 10);
    assert("LargeBook3"@.len() == 10);
    assert("MiddleBook1"@.len() == 11);
    assert("MiddleBook2"@.len() == 11);
    assert("MiddleBook3"@.len() == 11);
    assert("Wood1"@.len() == 5);
    assert("WafuTexture1"@.len() == 12);
    assert("WafuTexture2"@.len() == 12);
    assert("Chobo1"@.len() == 6);
    assert("ChoicePanel1"@.len() == 12);
    assert("ChoicePanel2"@.len() == 12);
    assert("ChoicePanel3"@.len() == 12);
    assert("ChoicePanel4"@.len() == 12);
    assert("ChoicePanel5"@.len() == 12);
    assert("JunkoTachieDefault"@.len() == 18);
    assert("SightBackground1"@.len() == 16);
    assert("ArrowRight"@.len() == 10);
    assert("ArrowLeft"@.len() == 9);
    assert("KosuzuDotFront1"@.len() == 15);
    assert("KosuzuDotFront2"@.len() == 15);
    assert("KosuzuDotFront3"@.len() == 15);
    assert("KosuzuDotBack1"@.len() == 14);
    assert("KosuzuDotBack2"@.len() == 14);
    assert("KosuzuDotBack3"@.len() == 14);
    assert("KosuzuDotRight1"@.len() == 15);
    assert("KosuzuDotRight2"@.len() == 15);
    assert("KosuzuDotRight3"@.len() == 15);
    assert("KosuzuDotLeft1"@.len() == 14);
    assert("KosuzuDotLeft2"@.len() == 14);
    assert("KosuzuDotLeft3"@.len() == 14);
    assert("StoreButton"@.len() == 11);
    assert("ResetButton"@.len() == 11);
    assert("MenuArt1"@.len() == 8);
    assert("MenuArt2"@.len() == 8);
    assert("JpHouseTexture"@.len() == 14);
    assert("BookBoxFront"@.len() == 12);
    assert("BookBoxBack"@.len() == 11);
    assert("Paper3"@.len() == 6);
    assert("Paper4"@.len() == 6);
    assert("Paper5"@.len() == 6);
    assert("Paper6"@.len() == 6);
    assert("Paper7"@.len() == 6);
    assert("BookBoxBack"@[0] == 'B');
    assert("BookBoxFront"@[0] == 'B');
    assert("Chobo1"@[0] == 'C');
    assert("ChoicePanel1"@[0] == 'C');
    assert("ChoicePanel2"@[0] == 'C');
    assert("ChoicePanel3"@[0] == 'C');
    assert("ChoicePanel4"@[0] == 'C');
    assert("ChoicePanel5"@[0] == 'C');
    assert("Ghost1"@[0] == 'G');
    assert("JpHouseTexture"@[0] == 'J');
    assert("KosuzuDotBack1"@[0] == 'K');
    assert("KosuzuDotBack2"@[0] == 'K');
    assert("KosuzuDotBack3"@[0] == 'K');
    assert("KosuzuDotLeft1"@[0] == 'K');
    assert("KosuzuDotLeft2"@[0] == 'K');
    assert("KosuzuDotLeft3"@[0] == 'K');
    assert("LotusYellow"@[0] == 'L');
    assert("MenuArt1"@[7] == '1');
    assert("MenuArt2"@[7] == '2');
    assert("MiddleBook1"@[0] == 'M');
    assert("MiddleBook2"@[0] == 'M');
    assert("MiddleBook3"@[0] == 'M');
    assert("Paper1"@[5] == '1');
    assert("Paper2"@[5] == '2');
    assert("Paper3"@[0] == 'P');
    assert("Paper3"@[5] == '3');
    assert("Paper4"@[0] == 'P');
    assert("Paper4"@[5] == '4');
    assert("Paper5"@[0] == 'P');
    assert("Paper5"@[5] == '5');
    assert("Paper6"@[0] == 'P');
    assert("Paper6"@[5] == '6');
    assert("Paper7"@[0] == 'P');
    assert("Paper7"@[5] == '7');
    assert("ResetButton"@[0] == 'R');
    assert("StoreButton"@[0] == 'S');
    assert("TextBackground"@[0] == 'T');
    assert("WafuTexture1"@[0] == 'W');
    assert("WafuTexture2"@[0] == 'W');
    match t {
        TextureID::MenuArt1 => assert(texture_id_named("MenuArt1"@) == Some(TextureID::MenuArt1)),
        TextureID::MenuArt2 => assert(texture_id_named("MenuArt2"@) == Some(TextureID::MenuArt2)),
        TextureID::JpHouseTexture => assert(texture_id_named("JpHouseTexture"@) == Some(TextureID::JpHouseTexture)),
        TextureID::BookBoxFront => assert(texture_id_named("BookBoxFront"@) == Some(TextureID::BookBoxFront)),
        TextureID::BookBoxBack => assert(texture_id_named("BookBoxBack"@) == Some(TextureID::BookBoxBack)),
        TextureID::Paper3 => assert(texture_id_named("Paper3"@) == Some(TextureID::Paper3)),
        TextureID::Paper4 => assert(texture_id_named("Paper4"@) == Some(TextureID::Paper4)),
        TextureID::Paper5 => assert(texture_id_named("Paper5"@) == Some(TextureID::Paper5)),
        TextureID::Paper6 => assert(texture_id_named("Paper6"@) == Some(TextureID::Paper6)),
        TextureID::Paper7 => assert(texture_id_named("Paper7"@) == Some(TextureID::Paper7)),
        _ => {},
    }
}

proof fn lemma_texture_names_50_60(t: TextureID)
    requires
        50 <= texture_id_index(t) < 60,
    ensures
        texture_id_named(texture_name(t)) == Some(t),
{
    reveal_strlit("Ghost1");
    reveal_strlit("LotusPink");
    reveal_strlit("LotusBlue");
    reveal_strlit("LotusYellow");
    reveal_strlit("TextBackground");
    reveal_strlit("Paper1");
    reveal_strlit("Paper2");
    reveal_strlit("LargeBook1");
    reveal_strlit("LargeBook2");
    reveal_strlit("LargeBook3");
    reveal_strlit("MiddleBook1");
    reveal_strlit("MiddleBook2");
    reveal_strlit("MiddleBook3");
    reveal_strlit("Wood1");
    reveal_strlit("WafuTexture1");
    reveal_strlit("WafuTexture2");
    reveal_strlit("Chobo1");
    reveal_strlit("ChoicePanel1");
    reveal_strlit("ChoicePanel2");
    reveal_strlit("ChoicePanel3");
    reveal_strlit("ChoicePanel4");
    reveal_strlit("ChoicePanel5");
    reveal_strlit("JunkoTachieDefault");
    reveal_strlit("SightBackground1");
    reveal_strlit("ArrowRight");
    reveal_strlit("ArrowLeft");
    reveal_strlit("KosuzuDotFront1");
    reveal_strlit("KosuzuDotFront2");
    reveal_strlit("KosuzuDotFront3");
    reveal_strlit("KosuzuDotBack1");
    reveal_strlit("KosuzuDotBack2");
    reveal_strlit("KosuzuDotBack3");
    reveal_strlit("KosuzuDotRight1");
    reveal_strlit("KosuzuDotRight2");
    reveal_strlit("KosuzuDotRight3");
    reveal_strlit("KosuzuDotLeft1");
    reveal_strlit("KosuzuDotLeft2");
    reveal_strlit("KosuzuDotLeft3");
    reveal_strlit("StoreButton");
    reveal_strlit("ResetButton");
    reveal_strlit("MenuArt1");
    reveal_strlit("MenuArt2");
    reveal_strlit("JpHouseTexture");
    reveal_strlit("BookBoxFront");
    reveal_strlit("BookBoxBack");
    reveal_strlit("Paper3");
    reveal_strlit("Paper4");
    reveal_strlit("Paper5");
    reveal_strlit("Paper6");
    reveal_strlit("Paper7");
    reveal_strlit("Clock1");
    reveal_strlit("ClockNeedle1");
    reveal_strlit("ShortClockNeedle1");
    reveal_strlit("Hanko");
    reveal_strlit("NextLineIcon");
    reveal_strlit("LargeBookScratchFair1");
    reveal_strlit("LargeBookScratchFair2");
    reveal_strlit("LargeBookScratchFair3");
    reveal_strlit("LargeBookScratchFair4");
    reveal_strlit("LargeBookScratchBad1");
    assert("Ghost1"@.len() == 6);
    assert("LotusPink"@.len() == 9);
    assert("LotusBlue"@.len() == 9);
    assert("LotusYellow"@.len() == 11);
    assert("TextBackground"@.len() == 14);
    assert("Paper1"@.len() == 6);
    assert("Paper2"@.len() == 6);
    assert("LargeBook1"@.len() == 10);
    assert("LargeBook2"@.len() == 10);
    assert("LargeBook3"@.len() == 10);
    assert("MiddleBook1"@.len() == 11);
    assert("MiddleBook2"@.len() == 11);
    assert("MiddleBook3"@.len() == 11);
    assert("Wood1"@.len() == 5);
    assert("WafuTexture1"@.len() == 12);
    assert("WafuTexture2"@.len() == 12);
    assert("Chobo1"@.len() == 6);
    assert("ChoicePanel1"@.len() == 12);
    assert("ChoicePanel2"@.len() == 12);
    assert("ChoicePanel3"@.len() == 12);
    assert("ChoicePanel4"@.len() == 12);
    assert("ChoicePanel5"@.len() == 12);
    assert("JunkoTachieDefault"@.len() == 18);
    assert("SightBackground1"@.len() == 16);
    assert("ArrowRight"@.len() == 10);
    assert("ArrowLeft"@.len() == 9);
    assert("KosuzuDotFront1"@.len() == 15);
    assert("KosuzuDotFront2"@.len() == 15);
    assert("KosuzuDotFront3"@.len() == 15);
    assert("KosuzuDotBack1"@.len() == 14);
    assert("KosuzuDotBack2"@.len() == 14);
    assert("KosuzuDotBack3"@.len() == 14);
    assert("KosuzuDotRight1"@.len() == 15);
    assert("KosuzuDotRight2"@.len() == 15);
    assert("KosuzuDotRight3"@.len() == 15);
    assert("KosuzuDotLeft1"@.len() == 14);
    assert("KosuzuDotLeft2"@.len() == 14);
    assert("KosuzuDotLeft3"@.len() == 14);
    assert("StoreButton"@.len() == 11);
    assert("ResetButton"@.len() == 11);
    assert("MenuArt1"@.len() == 8);
    assert("MenuArt2"@.len() == 8);
    assert("JpHouseTexture"@.len() == 14);
    assert("BookBoxFront"@.len() == 12);
    assert("BookBoxBack"@.len() == 11);
    assert("Paper3"@.len() == 6);
    assert("Paper4"@.len() == 6);
    assert("Paper5"@.len() == 6);
    assert("Paper6"@.len() == 6);
    assert("Paper7"@.len() == 6);
    assert("Clock1"@.len() == 6);
    assert("ClockNeedle1"@.len() == 12);
    assert("ShortClockNeedle1"@.len() == 17);
    assert("Hanko"@.len() == 5);
    assert("NextLineIcon"@.len() == 12);
    assert("LargeBookScratchFair1"@.len() == 21);
    assert("LargeBookScratchFair2"@.len() == 21);
    assert("LargeBookScratchFair3"@.len() == 21);
    assert("LargeBookScratchFair4"@.len() == 21);
    assert("LargeBookScratchBad1"@.len() == 20);
    assert("BookBoxFront"@[0] == 'B');
    assert("Chobo1"@[1] == 'h');
    assert("ChoicePanel1"@[0] == 'C');
    assert("ChoicePanel1"@[1] == 'h');
    assert("ChoicePanel2"@[0] == 'C');
    assert("ChoicePanel2"@[1] == 'h');
    assert("ChoicePanel3"@[0] == 'C');
    assert("ChoicePanel3"@[1] == 'h');
    assert("ChoicePanel4"@[0] == 'C');
    assert("ChoicePanel4"@[1] == 'h');
    assert("ChoicePanel5"@[0] == 'C');
    assert("ChoicePanel5"@[1] == 'h');
    assert("Clock1"@[0] == 'C');
    assert("Clock1"@[1] == 'l');
    assert("ClockNeedle1"@[0] == 'C');
    assert("ClockNeedle1"@[1] == 'l');
    assert("Ghost1"@[0] == 'G');
    assert("Hanko"@[0] == 'H');
    assert("LargeBookScratchFair1"@[20] == '1');
    assert("LargeBookScratchFair2"@[20] == '2');
    assert("LargeBookScratchFair3"@[20] == '3');
    assert("LargeBookScratchFair4"@[20] == '4');
    assert("NextLineIcon"@[0] == 'N');
    assert("Paper1"@[0] == 'P');
    assert("Paper2"@[0] == 'P');
    assert("Paper3"@[0] == 'P');
    assert("Paper4"@[0] == 'P');
    assert("Paper5"@[0] == 'P');
    assert("Paper6"@[0] == 'P');
    assert("Paper7"@[0] == 'P');
    assert("WafuTexture1"@[0] == 'W');
    assert("WafuTexture2"@[0] == 'W');
    assert("Wood1"@[0] == 'W');
    match t {
        TextureID::Clock1 => assert(texture_id_named("Clock1"@) == Some(TextureID::Clock1)),
        TextureID::ClockNeedle1 => assert(texture_id_named("ClockNeedle1"@) == Some(TextureID::ClockNeedle1)),
        TextureID::ShortClockNeedle1 => assert(texture_id_named("ShortClockNeedle1"@) == Some(TextureID::ShortClockNeedle1)),
        TextureID::Hanko => assert(texture_id_named("Hanko"@) == Some(TextureID::Hanko)),
        TextureID::NextLineIcon => assert(texture_id_named("NextLineIcon"@) == Some(TextureID::NextLineIcon)),
        TextureID::LargeBookScratchFair1 => assert(texture_id_named("LargeBookScratchFair1"@) == Some(TextureID::LargeBookScratchFair1)),
        TextureID::LargeBookScratchFair2 => assert(texture_id_named("LargeBookScratchFair2"@) == Some(TextureID::LargeBookScratchFair2)),
        TextureID::LargeBookScratchFair3 => assert(texture_id_named("LargeBookScratchFair3"@) == Some(TextureID::LargeBookScratchFair3)),
        TextureID::LargeBookScratchFair4 => assert(texture_id_named("LargeBookScratchFair4"@) == Some(TextureID::LargeBookScratchFair4)),
        TextureID::LargeBookScratchBad1 => assert(texture_id_named("LargeBookScratchBad1"@) == Some(TextureID::LargeBookScratchBad1)),
        _ => {},
    }
}

proof fn lemma_texture_names_60_70(t: TextureID)
    requires
        60 <= texture_id_index(t) < 70,
    ensures
        texture_id_named(texture_name(t)) == Some(t),
{
    reveal_strlit("Ghost1");
    reveal_strlit("LotusPink");
    reveal_strlit("LotusBlue");
    reveal_strlit("LotusYellow");
    reveal_strlit("TextBackground");
    reveal_strlit("Paper1");
    reveal_strlit("Paper2");
    reveal_strlit("LargeBook1");
    reveal_strlit("LargeBook2");
    reveal_strlit("LargeBook3");
    reveal_strlit("MiddleBook1");
    reveal_strlit("MiddleBook2");
    reveal_strlit("MiddleBook3");
    reveal_strlit("Wood1");
    reveal_strlit("WafuTexture1");
    reveal_strlit("WafuTexture2");
    reveal_strlit("Chobo1");
    reveal_strlit("ChoicePanel1");
    reveal_strlit("ChoicePanel2");
    reveal_strlit("ChoicePanel3");
    reveal_strlit("ChoicePanel4");
    reveal_strlit("ChoicePanel5");
    reveal_strlit("JunkoTachieDefault");
    reveal_strlit("SightBackground1");
    reveal_strlit("ArrowRight");
    reveal_strlit("ArrowLeft");
    reveal_strlit("KosuzuDotFront1");
    reveal_strlit("KosuzuDotFront2");
    reveal_strlit("KosuzuDotFront3");
    reveal_strlit("KosuzuDotBack1");
    reveal_strlit("KosuzuDotBack2");
    reveal_strlit("KosuzuDotBack3");
    reveal_strlit("KosuzuDotRight1");
    reveal_strlit("KosuzuDotRight2");
    reveal_strlit("KosuzuDotRight3");
    reveal_strlit("KosuzuDotLeft1");
    reveal_strlit("KosuzuDotLeft2");
    reveal_strlit("KosuzuDotLeft3");
    reveal_strlit("StoreButton");
    reveal_strlit("ResetButton");
    reveal_strlit("MenuArt1");
    reveal_strlit("MenuArt2");
    reveal_strlit("JpHouseTexture");
    reveal_strlit("BookBoxFront");
    reveal_strlit("BookBoxBack");
    reveal_strlit("Paper3");
    reveal_strlit("Paper4");
    reveal_strlit("Paper5");
    reveal_strlit("Paper6");
    reveal_strlit("Paper7");
    reveal_strlit("Clock1");
    reveal_strlit("ClockNeedle1");
    reveal_strlit("ShortClockNeedle1");
    reveal_strlit("Hanko");
    reveal_strlit("NextLineIcon");
    reveal_strlit("LargeBookScratchFair1");
    reveal_strlit("LargeBookScratchFair2");
    reveal_strlit("LargeBookScratchFair3");
    reveal_strlit("LargeBookScratchFair4");
    reveal_strlit("LargeBookScratchBad1");
    reveal_strlit("LargeBookScratchBad2");
    reveal_strlit("LargeBookScratchBad3");
    reveal_strlit("LargeBookScratchBad4");
    reveal_strlit("ManualPageBookTitles");
    reveal_strlit("ManualPageBorrowingFlow");
    reveal_strlit("ManualPageReturnFlow");
    reveal_strlit("GoNextPageLeft");
    reveal_strlit("GoNextPageRight");
    reveal_strlit("Library");
    reveal_strlit("KosuzuTachie1");
    assert("Ghost1"@.len() == 6);
    assert("LotusPink"@.len() == 9);
    assert("LotusBlue"@.len() == 9);
    assert("LotusYellow"@.len() == 11);
    assert("TextBackground"@.len() == 14);
    assert("Paper1"@.len() == 6);
    assert("Paper2"@.len() == 6);
    assert("LargeBook1"@.len() == 10);
    assert("LargeBook2"@.len() == 10);
    assert("LargeBook3"@.len() == 10);
    assert("MiddleBook1"@.len() == 11);
    assert("MiddleBook2"@.len() == 11);
    assert("MiddleBook3"@.len() == 11);
    assert("Wood1"@.len() == 5);
    assert("WafuTexture1"@.len() == 12);
    assert("WafuTexture2"@.len() == 12);
    assert("Chobo1"@.len() == 6);
    assert("ChoicePanel1"@.len() == 12);
    assert("ChoicePanel2"@.len() == 12);
    assert("ChoicePanel3"@.len() == 12);
    assert("ChoicePanel4"@.len() == 12);
    assert("ChoicePanel5"@.len() == 12);
    assert("JunkoTachieDefault"@.len() == 18);
    assert("SightBackground1"@.len() == 16);
    assert("ArrowRight"@.len() == 10);
    assert("ArrowLeft"@.len() == 9);
    assert("KosuzuDotFront1"@.len() == 15);
    assert("KosuzuDotFront2"@.len() == 15);
    assert("KosuzuDotFront3"@.len() == 15);
    assert("KosuzuDotBack1"@.len() == 14);
    assert("KosuzuDotBack2"@.len() == 14);
    assert("KosuzuDotBack3"@.len() == 14);
    assert("KosuzuDotRight1"@.len() == 15);
    assert("KosuzuDotRight2"@.len() == 15);
    assert("KosuzuDotRight3"@.len() == 15);
    assert("KosuzuDotLeft1"@.len() == 14);
    assert("KosuzuDotLeft2"@.len() == 14);
    assert("KosuzuDotLeft3"@.len() == 14);
    assert("StoreButton"@.len() == 11);
    assert("ResetButton"@.len() == 11);
    assert("MenuArt1"@.len() == 8);
    assert("MenuArt2"@.len() == 8);
    assert("JpHouseTexture"@.len() == 14);
    assert("BookBoxFront"@.len() == 12);
    assert("BookBoxBack"@.len() == 11);
    assert("Paper3"@.len() == 6);
    assert("Paper4"@.len() == 6);
    assert("Paper5"@.len() == 6);
    assert("Paper6"@.len() == 6);
    assert("Paper7"@.len() == 6);
    assert("Clock1"@.len() == 6);
    assert("ClockNeedle1"@.len() == 12);
    assert("ShortClockNeedle1"@.len() == 17);
    assert("Hanko"@.len() == 5);
    assert("NextLineIcon"@.len() == 12);
    assert("LargeBookScratchFair1"@.len() == 21);
    assert("LargeBookScratchFair2"@.len() == 21);
    assert("LargeBookScratchFair3"@.len() == 21);
    assert("LargeBookScratchFair4"@.len() == 21);
    assert("LargeBookScratchBad1"@.len() == 20);
    assert("LargeBookScratchBad2"@.len() == 20);
    assert("LargeBookScratchBad3"@.len() == 20);
    assert("LargeBookScratchBad4"@.len() == 20);
    assert("ManualPageBookTitles"@.len() == 20);
    assert("ManualPageBorrowingFlow"@.len() == 23);
    assert("ManualPageReturnFlow"@.len() == 20);
    assert("GoNextPageLeft"@.len() == 14);
    assert("GoNextPageRight"@.len() == 15);
    assert("Library"@.len() == 7);
    assert("KosuzuTachie1"@.len() == 13);
    assert("GoNextPageLeft"@[0] == 'G');
    assert("GoNextPageRight"@[0] == 'G');
    assert("JpHouseTexture"@[0] == 'J');
    assert("KosuzuDotBack1"@[0] == 'K');
    assert("KosuzuDotBack2"@[0] == 'K');
    assert("KosuzuDotBack3"@[0] == 'K');
    assert("KosuzuDotFront1"@[0] == 'K');
    assert("KosuzuDotFront2"@[0] == 'K');
    assert("KosuzuDotFront3"@[0] == 'K');
    assert("KosuzuDotLeft1"@[0] == 'K');
    assert("KosuzuDotLeft2"@[0] == 'K');
    assert("KosuzuDotLeft3"@[0] == 'K');
    assert("KosuzuDotRight1"@[0] == 'K');
    assert("KosuzuDotRight2"@[0] == 'K');
    assert("KosuzuDotRight3"@[0] == 'K');
    assert("LargeBookScratchBad1"@[0] == 'L');
    assert("LargeBookScratchBad1"@[19] == '1');
    assert("LargeBookScratchBad2"@[0] == 'L');
    assert("LargeBookScratchBad2"@[19] == '2');
    assert("LargeBookScratchBad3"@[0] == 'L');
    assert("LargeBookScratchBad3"@[19] == '3');
    assert("LargeBookScratchBad4"@[0] == 'L');
    assert("LargeBookScratchBad4"@[19] == '4');
    assert("ManualPageBookTitles"@[0] == 'M');
    assert("ManualPageBookTitles"@[10] == 'B');
    assert("ManualPageReturnFlow"@[0] == 'M');
    assert("ManualPageReturnFlow"@[10] == 'R');
    assert("TextBackground"@[0] == 'T');
    match t {
        TextureID::LargeBookScratchBad2 => assert(texture_id_named("LargeBookScratchBad2"@) == Some(TextureID::LargeBookScratchBad2)),
        TextureID::LargeBookScratchBad3 => assert(texture_id_named("LargeBookScratchBad3"@) == Some(TextureID::LargeBookScratchBad3)),
        TextureID::LargeBookScratchBad4 => assert(texture_id_named("LargeBookScratchBad4"@) == Some(TextureID::LargeBookScratchBad4)),
        TextureID::ManualPageBookTitles => assert(texture_id_named("ManualPageBookTitles"@) == Some(TextureID::ManualPageBookTitles)),
        TextureID::ManualPageBorrowingFlow => assert(texture_id_named("ManualPageBorrowingFlow"@) == Some(TextureID::ManualPageBorrowingFlow)),
        TextureID::ManualPageReturnFlow => assert(texture_id_named("ManualPageReturnFlow"@) == Some(TextureID::ManualPageReturnFlow)),
        TextureID::GoNextPageLeft => assert(texture_id_named("GoNextPageLeft"@) == Some(TextureID::GoNextPageLeft)),
        TextureID::GoNextPageRight => assert(texture_id_named("GoNextPageRight"@) == Some(TextureID::GoNextPageRight)),
        TextureID::Library => assert(texture_id_named("Library"@) == Some(TextureID::Library)),
        TextureID::KosuzuTachie1 => assert(texture_id_named("KosuzuTachie1"@) == Some(TextureID::KosuzuTachie1)),
        _ => {},
    }
}

proof fn lemma_texture_names_70_78(t: TextureID)
    requires
        70 <= texture_id_index(t) < 78,
    ensures
        texture_id_named(texture_name(t)) == Some(t),
{
    reveal_strlit("Ghost1");
    reveal_strlit("LotusPink");
    reveal_strlit("LotusBlue");
    reveal_strlit("LotusYellow");
    reveal_strlit("TextBackground");
    reveal_strlit("Paper1");
    reveal_strlit("Paper2");
    reveal_strlit("LargeBook1");
    reveal_strlit("LargeBook2");
    reveal_strlit("LargeBook3");
    reveal_strlit("MiddleBook1");
    reveal_strlit("MiddleBook2");
    reveal_strlit("MiddleBook3");
    reveal_strlit("Wood1");
    reveal_strlit("WafuTexture1");
    reveal_strlit("WafuTexture2");
    reveal_strlit("Chobo1");
    reveal_strlit("ChoicePanel1");
    reveal_strlit("ChoicePanel2");
    reveal_strlit("ChoicePanel3");
    reveal_strlit("ChoicePanel4");
    reveal_strlit("ChoicePanel5");
    reveal_strlit("JunkoTachieDefault");
    reveal_strlit("SightBackground1");
    reveal_strlit("ArrowRight");
    reveal_strlit("ArrowLeft");
    reveal_strlit("KosuzuDotFront1");
    reveal_strlit("KosuzuDotFront2");
    reveal_strlit("KosuzuDotFront3");
    reveal_strlit("KosuzuDotBack1");
    reveal_strlit("KosuzuDotBack2");
    reveal_strlit("KosuzuDotBack3");
    reveal_strlit("KosuzuDotRight1");
    reveal_strlit("KosuzuDotRight2");
    reveal_strlit("KosuzuDotRight3");
    reveal_strlit("KosuzuDotLeft1");
    reveal_strlit("KosuzuDotLeft2");
    reveal_strlit("KosuzuDotLeft3");
    reveal_strlit("StoreButton");
    reveal_strlit("ResetButton");
    reveal_strlit("MenuArt1");
    reveal_strlit("MenuArt2");
    reveal_strlit("JpHouseTexture");
    reveal_strlit("BookBoxFront");
    reveal_strlit("BookBoxBack");
    reveal_strlit("Paper3");
    reveal_strlit("Paper4");
    reveal_strlit("Paper5");
    reveal_strlit("Paper6");
    reveal_strlit("Paper7");
    reveal_strlit("Clock1");
    reveal_strlit("ClockNeedle1");
    reveal_strlit("ShortClockNeedle1");
    reveal_strlit("Hanko");
    reveal_strlit("NextLineIcon");
    reveal_strlit("LargeBookScratchFair1");
    reveal_strlit("LargeBookScratchFair2");
    reveal_strlit("LargeBookScratchFair3");
    reveal_strlit("LargeBookScratchFair4");
    reveal_strlit("LargeBookScratchBad1");
    reveal_strlit("LargeBookScratchBad2");
    reveal_strlit("LargeBookScratchBad3");
    reveal_strlit("LargeBookScratchBad4");
    reveal_strlit("ManualPageBookTitles");
    reveal_strlit("ManualPageBorrowingFlow");
    reveal_strlit("ManualPageReturnFlow");
    reveal_strlit("GoNextPageLeft");
    reveal_strlit("GoNextPageRight");
    reveal_strlit("Library");
    reveal_strlit("KosuzuTachie1");
    reveal_strlit("CheckCircle");
    reveal_strlit("MoneyBox");
    reveal_strlit("KosuzuSmile1");
    reveal_strlit("Coin100Yen");
    reveal_strlit("Coin50Yen");
    reveal_strlit("Coin500Yen");
    reveal_strlit("BaraBG");
    reveal_strlit("SuzunaanMap");
    assert("Ghost1"@.len() == 6);
    assert("LotusPink"@.len() == 9);
    assert("LotusBlue"@.len() == 9);
    assert("LotusYellow"@.len() == 11);
    assert("TextBackground"@.len() == 14);
    assert("Paper1"@.len() == 6);
    assert("Paper2"@.len() == 6);
    assert("LargeBook1"@.len() == 10);
    assert("LargeBook2"@.len() == 10);
    assert("LargeBook3"@.len() == 10);
    assert("MiddleBook1"@.len() == 11);
    assert("MiddleBook2"@.len() == 11);
    assert("MiddleBook3"@.len() == 11);
    assert("Wood1"@.len() == 5);
    assert("WafuTexture1"@.len() == 12);
    assert("WafuTexture2"@.len() == 12);
    assert("Chobo1"@.len() == 6);
    assert("ChoicePanel1"@.len() == 12);
    assert("ChoicePanel2"@.len() == 12);
    assert("ChoicePanel3"@.len() == 12);
    assert("ChoicePanel4"@.len() == 12);
    assert("ChoicePanel5"@.len() == 12);
    assert("JunkoTachieDefault"@.len() == 18);
    assert("SightBackground1"@.len() == 16);
    assert("ArrowRight"@.len() == 10);
    assert("ArrowLeft"@.len() == 9);
    assert("KosuzuDotFront1"@.len() == 15);
    assert("KosuzuDotFront2"@.len() == 15);
    assert("KosuzuDotFront3"@.len() == 15);
    assert("KosuzuDotBack1"@.len() == 14);
    assert("KosuzuDotBack2"@.len() == 14);
    assert("KosuzuDotBack3"@.len() == 14);
    assert("KosuzuDotRight1"@.len() == 15);
    assert("KosuzuDotRight2"@.len() == 15);
    assert("KosuzuDotRight3"@.len() == 15);
    assert("KosuzuDotLeft1"@.len() == 14);
    assert("KosuzuDotLeft2"@.len() == 14);
    assert("KosuzuDotLeft3"@.len() == 14);
    assert("StoreButton"@.len() == 11);
    assert("ResetButton"@.len() == 11);
    assert("MenuArt1"@.len() == 8);
    assert("MenuArt2"@.len() == 8);
    assert("JpHouseTexture"@.len() == 14);
    assert("BookBoxFront"@.len() == 12);
    assert("BookBoxBack"@.len() == 11);
    assert("Paper3"@.len() == 6);
    assert("Paper4"@.len() == 6);
    assert("Paper5"@.len() == 6);
    assert("Paper6"@.len() == 6);
    assert("Paper7"@.len() == 6);
    assert("Clock1"@.len() == 6);
    assert("ClockNeedle1"@.len() == 12);
    assert("ShortClockNeedle1"@.len() == 17);
    assert("Hanko"@.len() == 5);
    assert("NextLineIcon"@.len() == 12);
    assert("LargeBookScratchFair1"@.len() == 21);
    assert("LargeBookScratchFair2"@.len() == 21);
    assert("LargeBookScratchFair3"@.len() == 21);
    assert("LargeBookScratchFair4"@.len() == 21);
    assert("LargeBookScratchBad1"@.len() == 20);
    assert("LargeBookScratchBad2"@.len() == 20);
    assert("LargeBookScratchBad3"@.len() == 20);
    assert("LargeBookScratchBad4"@.len() == 20);
    assert("ManualPageBookTitles"@.len() == 20);
    assert("ManualPageBorrowingFlow"@.len() == 23);
    assert("ManualPageReturnFlow"@.len() == 20);
    assert("GoNextPageLeft"@.len() == 14);
    assert("GoNextPageRight"@.len() == 15);
    assert("Library"@.len() == 7);
    assert("KosuzuTachie1"@.len() == 13);
    assert("CheckCircle"@.len() == 11);
    assert("MoneyBox"@.len() == 8);
    assert("KosuzuSmile1"@.len() == 12);
    assert("Coin100Yen"@.len() == 10);
    assert("Coin50Yen"@.len() == 9);
    assert("Coin500Yen"@.len() == 10);
    assert("BaraBG"@.len() == 6);
    assert("SuzunaanMap"@.len() == 11);
    assert("ArrowLeft"@[0] == 'A');
    assert("ArrowRight"@[0] == 'A');
    assert("BaraBG"@[0] == 'B');
    assert("BookBoxBack"@[0] == 'B');
    assert("BookBoxFront"@[0] == 'B');
    assert("CheckCircle"@[0] == 'C');
    assert("Chobo1"@[0] == 'C');
    assert("ChoicePanel1"@[0] == 'C');
    assert("ChoicePanel2"@[0] == 'C');
    assert("ChoicePanel3"@[0] == 'C');
    assert("ChoicePanel4"@[0] == 'C');
    assert("ChoicePanel5"@[0] == 'C');
    assert("Clock1"@[0] == 'C');
    assert("ClockNeedle1"@[0] == 'C');
    assert("Coin100Yen"@[0] == 'C');
    assert("Coin100Yen"@[4] == '1');
    assert("Coin500Yen"@[0] == 'C');
    assert("Coin500Yen"@[4] == '5');
    assert("Coin50Yen"@[0] == 'C');
    assert("Ghost1"@[0] == 'G');
    assert("KosuzuSmile1"@[0] == 'K');
    assert("LargeBook1"@[0] == 'L');
    assert("LargeBook2"@[0] == 'L');
    assert("LargeBook3"@[0] == 'L');
    assert("LotusBlue"@[0] == 'L');
    assert("LotusPink"@[0] == 'L');
    assert("LotusYellow"@[0] == 'L');
    assert("MenuArt1"@[1] == 'e');
    assert("MenuArt2"@[1] == 'e');
    assert("MiddleBook1"@[0] == 'M');
    assert("MiddleBook2"@[0] == 'M');
    assert("MiddleBook3"@[0] == 'M');
    assert("MoneyBox"@[1] == 'o');
    assert("NextLineIcon"@[0] == 'N');
    assert("Paper1"@[0] == 'P');
    assert("Paper2"@[0] == 'P');
    assert("Paper3"@[0] == 'P');
    assert("Paper4"@[0] == 'P');
    assert("Paper5"@[0] == 'P');
    assert("Paper6"@[0] == 'P');
    assert("Paper7"@[0] == 'P');
    assert("ResetButton"@[0] == 'R');
    assert("StoreButton"@[0] == 'S');
    assert("StoreButton"@[1] == 't');
    assert("SuzunaanMap"@[0] == 'S');
    assert("SuzunaanMap"@[1] == 'u');
    assert("WafuTexture1"@[0] == 'W');
    assert("WafuTexture2"@[0] == 'W');
    match t {
        TextureID::CheckCircle => assert(texture_id_named("CheckCircle"@) == Some(TextureID::CheckCircle)),
        TextureID::MoneyBox => assert(texture_id_named("MoneyBox"@) == Some(TextureID::MoneyBox)),
        TextureID::KosuzuSmile1 => assert(texture_id_named("KosuzuSmile1"@) == Some(TextureID::KosuzuSmile1)),
        TextureID::Coin100Yen => assert(texture_id_named("Coin100Yen"@) == Some(TextureID::Coin100Yen)),
        TextureID::Coin50Yen => assert(texture_id_named("Coin50Yen"@) == Some(TextureID::Coin50Yen)),
        TextureID::Coin500Yen => assert(texture_id_named("Coin500Yen"@) == Some(TextureID::Coin500Yen)),
        TextureID::BaraBG => assert(texture_id_named("BaraBG"@) == Some(TextureID::BaraBG)),
        TextureID::SuzunaanMap => assert(texture_id_named("SuzunaanMap"@) == Some(TextureID::SuzunaanMap)),
        _ => {},
    }
}

proof fn lemma_unknown_names_no_texture()
    ensures
        texture_id_named(texture_name(TextureID::Unknown)) is None,
{
    reveal_strlit("Ghost1");
    reveal_strlit("LotusPink");
    reveal_strlit("LotusBlue");
    reveal_strlit("LotusYellow");
    reveal_strlit("TextBackground");
    reveal_strlit("Paper1");
    reveal_strlit("Paper2");
    reveal_strlit("LargeBook1");
    reveal_strlit("LargeBook2");
    reveal_strlit("LargeBook3");
    reveal_strlit("MiddleBook1");
    reveal_strlit("MiddleBook2");
    reveal_strlit("MiddleBook3");
    reveal_strlit("Wood1");
    reveal_strlit("WafuTexture1");
    reveal_strlit("WafuTexture2");
    reveal_strlit("Chobo1");
    reveal_strlit("ChoicePanel1");
    reveal_strlit("ChoicePanel2");
    reveal_strlit("ChoicePanel3");
    reveal_strlit("ChoicePanel4");
    reveal_strlit("ChoicePanel5");
    reveal_strlit("JunkoTachieDefault");
    reveal_strlit("SightBackground1");
    reveal_strlit("ArrowRight");
    reveal_strlit("ArrowLeft");
    reveal_strlit("KosuzuDotFront1");
    reveal_strlit("KosuzuDotFront2");
    reveal_strlit("KosuzuDotFront3");
    reveal_strlit("KosuzuDotBack1");
    reveal_strlit("KosuzuDotBack2");
    reveal_strlit("KosuzuDotBack3");
    reveal_strlit("KosuzuDotRight1");
    reveal_strlit("KosuzuDotRight2");
    reveal_strlit("KosuzuDotRight3");
    reveal_strlit("KosuzuDotLeft1");
    reveal_strlit("KosuzuDotLeft2");
    reveal_strlit("KosuzuDotLeft3");
    reveal_strlit("StoreButton");
    reveal_strlit("ResetButton");
    reveal_strlit("MenuArt1");
    reveal_strlit("MenuArt2");
    reveal_strlit("JpHouseTexture");
    reveal_strlit("BookBoxFront");
    reveal_strlit("BookBoxBack");
    reveal_strlit("Paper3");
    reveal_strlit("Paper4");
    reveal_strlit("Paper5");
    reveal_strlit("Paper6");
    reveal_strlit("Paper7");
    reveal_strlit("Clock1");
    reveal_strlit("ClockNeedle1");
    reveal_strlit("ShortClockNeedle1");
    reveal_strlit("Hanko");
    reveal_strlit("NextLineIcon");
    reveal_strlit("LargeBookScratchFair1");
    reveal_strlit("LargeBookScratchFair2");
    reveal_strlit("LargeBookScratchFair3");
    reveal_strlit("LargeBookScratchFair4");
    reveal_strlit("LargeBookScratchBad1");
    reveal_strlit("LargeBookScratchBad2");
    reveal_strlit("LargeBookScratchBad3");
    reveal_strlit("LargeBookScratchBad4");
    reveal_strlit("ManualPageBookTitles");
    reveal_strlit("ManualPageBorrowingFlow");
    reveal_strlit("ManualPageReturnFlow");
    reveal_strlit("GoNextPageLeft");
    reveal_strlit("GoNextPageRight");
    reveal_strlit("Library");
    reveal_strlit("KosuzuTachie1");
    reveal_strlit("CheckCircle");
    reveal_strlit("MoneyBox");
    reveal_strlit("KosuzuSmile1");
    reveal_strlit("Coin100Yen");
    reveal_strlit("Coin50Yen");
    reveal_strlit("Coin500Yen");
    reveal_strlit("BaraBG");
    reveal_strlit("SuzunaanMap");
    reveal_strlit("Unknown");
    assert("Ghost1"@.len() == 6);
    assert("LotusPink"@.len() == 9);
    assert("LotusBlue"@.len() == 9);
    assert("LotusYellow"@.len() == 11);
    assert("TextBackground"@.len() == 14);
    assert("Paper1"@.len() == 6);
    assert("Paper2"@.len() == 6);
    assert("LargeBook1"@.len() == 10);
    assert("LargeBook2"@.len() == 10);
    assert("LargeBook3"@.len() == 10);
    assert("MiddleBook1"@.len() == 11);
    assert("MiddleBook2"@.len() == 11);
    assert("MiddleBook3"@.len() == 11);
    assert("Wood1"@.len() == 5);
    assert("WafuTexture1"@.len() == 12);
    assert("WafuTexture2"@.len() == 12);
    assert("Chobo1"@.len() == 6);
    assert("ChoicePanel1"@.len() == 12);
    assert("ChoicePanel2"@.len() == 12);
    assert("ChoicePanel3"@.len() == 12);
    assert("ChoicePanel4"@.len() == 12);
    assert("ChoicePanel5"@.len() == 12);
    assert("JunkoTachieDefault"@.len() == 18);
    assert("SightBackground1"@.len() == 16);
    assert("ArrowRight"@.len() == 10);
    assert("ArrowLeft"@.len() == 9);
    assert("KosuzuDotFront1"@.len() == 15);
    assert("KosuzuDotFront2"@.len() == 15);
    assert("KosuzuDotFront3"@.len() == 15);
    assert("KosuzuDotBack1"@.len() == 14);
    assert("KosuzuDotBack2"@.len() == 14);
    assert("KosuzuDotBack3"@.len() == 14);
    assert("KosuzuDotRight1"@.len() == 15);
    assert("KosuzuDotRight2"@.len() == 15);
    assert("KosuzuDotRight3"@.len() == 15);
    assert("KosuzuDotLeft1"@.len() == 14);
    assert("KosuzuDotLeft2"@.len() == 14);
    assert("KosuzuDotLeft3"@.len() == 14);
    assert("StoreButton"@.len() == 11);
    assert("ResetButton"@.len() == 11);
    assert("MenuArt1"@.len() == 8);
    assert("MenuArt2"@.len() == 8);
    assert("JpHouseTexture"@.len() == 14);
    assert("BookBoxFront"@.len() == 12);
    assert("BookBoxBack"@.len() == 11);
    assert("Paper3"@.len() == 6);
    assert("Paper4"@.len() == 6);
    assert("Paper5"@.len() == 6);
    assert("Paper6"@.len() == 6);
    assert("Paper7"@.len() == 6);
    assert("Clock1"@.len() == 6);
    assert("ClockNeedle1"@.len() == 12);
    assert("ShortClockNeedle1"@.len() == 17);
    assert("Hanko"@.len() == 5);
    assert("NextLineIcon"@.len() == 12);
    assert("LargeBookScratchFair1"@.len() == 21);
    assert("LargeBookScratchFair2"@.len() == 21);
    assert("LargeBookScratchFair3"@.len() == 21);
    assert("LargeBookScratchFair4"@.len() == 21);
    assert("LargeBookScratchBad1"@.len() == 20);
    assert("LargeBookScratchBad2"@.len() == 20);
    assert("LargeBookScratchBad3"@.len() == 20);
    assert("LargeBookScratchBad4"@.len() == 20);
    assert("ManualPageBookTitles"@.len() == 20);
    assert("ManualPageBorrowingFlow"@.len() == 23);
    assert("ManualPageReturnFlow"@.len() == 20);
    assert("GoNextPageLeft"@.len() == 14);
    assert("GoNextPageRight"@.len() == 15);
    assert("KosuzuTachie1"@.len() == 13);
    assert("CheckCircle"@.len() == 11);
    assert("MoneyBox"@.len() == 8);
    assert("KosuzuSmile1"@.len() == 12);
    assert("Coin100Yen"@.len() == 10);
    assert("Coin50Yen"@.len() == 9);
    assert("Coin500Yen"@.len() == 10);
    assert("BaraBG"@.len() == 6);
    assert("SuzunaanMap"@.len() == 11);
    assert("Unknown"@.len() == 7);
    assert("Library"@[0] == 'L');
    assert("Unknown"@[0] == 'U');
}

/// Law: the name of every texture but `Unknown` reads back, through
/// `TextureID::from_str`, as that texture; `Unknown`'s name reads as none;
/// and a text that reads as a texture is that texture's name.
pub proof fn law_texture_name_reads_back(t: TextureID, s: Seq<char>)
    ensures
        t != TextureID::Unknown ==> texture_id_named(texture_name(t)) == Some(t),
        texture_id_named(texture_name(TextureID::Unknown)) is None,
        texture_id_named(s) == Some(t) ==> s == texture_name(t),
{
    lemma_unknown_names_no_texture();
    if texture_id_index(t) < 10 {
        lemma_texture_names_0_10(t);
    } else if texture_id_index(t) < 20 {
        lemma_texture_names_10_20(t);
    } else if texture_id_index(t) < 30 {
        lemma_texture_names_20_30(t);
    } else if texture_id_index(t) < 40 {
        lemma_texture_names_30_40(t);
    } else if texture_id_index(t) < 50 {
        lemma_texture_names_40_50(t);
    } else if texture_id_index(t) < 60 {
        lemma_texture_names_50_60(t);
    } else if texture_id_index(t) < 70 {
        lemma_texture_names_60_70(t);
    } else if texture_id_index(t) < 78 {
        lemma_texture_names_70_78(t);
    }
}

/// Law: every texture but `Unknown` is found again at its own position of the
/// resource list.
pub proof fn law_texture_index_roundtrip(t: TextureID)
    requires
        t != TextureID::Unknown,
    ensures
        texture_id_at(texture_id_index(t)) == Some(t),
{
}

/// Law: the positions that name a texture are exactly those below `Unknown`'s.
pub proof fn law_texture_positions(n: int)
    ensures
        texture_id_at(n) is Some <==> 0 <= n < texture_id_index(TextureID::Unknown),
        texture_id_at(n) matches Some(t) ==> texture_id_index(t) == n,
{
}

impl TextureID {
    /// The texture named `s` in the resource files.
    pub fn from_str(s: &str) -> (r: Result<Self, ()>)
        ensures
            r == (match texture_id_named(s@) {
                Some(t) => Ok(t),
                None => Err(()),
            }),
    {
        if str_equals(s, "Ghost1") {
            Ok(Self::Ghost1)
        } else if str_equals(s, "LotusPink") {
            Ok(Self::LotusPink)
        } else if str_equals(s, "LotusBlue") {
            Ok(Self::LotusBlue)
        } else if str_equals(s, "LotusYellow") {
            Ok(Self::LotusYellow)
        } else if str_equals(s, "TextBackground") {
            Ok(Self::TextBackground)
        } else if str_equals(s, "Paper1") {
            Ok(Self::Paper1)
        } else if str_equals(s, "Paper2") {
            Ok(Self::Paper2)
        } else if str_equals(s, "LargeBook1") {
            Ok(Self::LargeBook1)
        } else if str_equals(s, "LargeBook2") {
            Ok(Self::LargeBook2)
        } else if str_equals(s, "LargeBook3") {
            Ok(Self::LargeBook3)
        } else if str_equals(s, "MiddleBook1") {
            Ok(Self::MiddleBook1)
        } else if str_equals(s, "MiddleBook2") {
            Ok(Self::MiddleBook2)
        } else if str_equals(s, "MiddleBook3") {
            Ok(Self::MiddleBook3)
        } else if str_equals(s, "Wood1") {
            Ok(Self::Wood1)
        } else if str_equals(s, "WafuTexture1") {
            Ok(Self::WafuTexture1)
        } else if str_equals(s, "WafuTexture2") {
            Ok(Self::WafuTexture2)
        } else if str_equals(s, "Chobo1") {
            Ok(Self::Chobo1)
        } else if str_equals(s, "ChoicePanel1") {
            Ok(Self::ChoicePanel1)
        } else if str_equals(s, "ChoicePanel2") {
            Ok(Self::ChoicePanel2)
        } else if str_equals(s, "ChoicePanel3") {
            Ok(Self::ChoicePanel3)
        } else if str_equals(s, "ChoicePanel4") {
            Ok(Self::ChoicePanel4)
        } else if str_equals(s, "ChoicePanel5") {
            Ok(Self::ChoicePanel5)
        } else if str_equals(s, "JunkoTachieDefault") {
            Ok(Self::JunkoTachieDefault)
        } else if str_equals(s, "SightBackground1") {
            Ok(Self::SightBackground1)
        } else if str_equals(s, "ArrowRight") {
            Ok(Self::ArrowRight)
        } else if str_equals(s, "ArrowLeft") {
            Ok(Self::ArrowLeft)
        } else if str_equals(s, "KosuzuDotFront1") {
            Ok(Self::KosuzuDotFront1)
        } else if str_equals(s, "KosuzuDotFront2") {
            Ok(Self::KosuzuDotFront2)
        } else if str_equals(s, "KosuzuDotFront3") {
            Ok(Self::KosuzuDotFront3)
        } else if str_equals(s, "KosuzuDotBack1") {
            Ok(Self::KosuzuDotBack1)
        } else if str_equals(s, "KosuzuDotBack2") {
            Ok(Self::KosuzuDotBack2)
        } else if str_equals(s, "KosuzuDotBack3") {
            Ok(Self::KosuzuDotBack3)
        } else if str_equals(s, "KosuzuDotRight1") {
            Ok(Self::KosuzuDotRight1)
        } else if str_equals(s, "KosuzuDotRight2") {
            Ok(Self::KosuzuDotRight2)
        } else if str_equals(s, "KosuzuDotRight3") {
            Ok(Self::KosuzuDotRight3)
        } else if str_equals(s, "KosuzuDotLeft1") {
            Ok(Self::KosuzuDotLeft1)
        } else if str_equals(s, "KosuzuDotLeft2") {
            Ok(Self::KosuzuDotLeft2)
        } else if str_equals(s, "KosuzuDotLeft3") {
            Ok(Self::KosuzuDotLeft3)
        } else if str_equals(s, "StoreButton") {
            Ok(Self::StoreButton)
        } else if str_equals(s, "ResetButton") {
            Ok(Self::ResetButton)
        } else if str_equals(s, "MenuArt1") {
            Ok(Self::MenuArt1)
        } else if str_equals(s, "MenuArt2") {
            Ok(Self::MenuArt2)
        } else if str_equals(s, "JpHouseTexture") {
            Ok(Self::JpHouseTexture)
        } else if str_equals(s, "BookBoxFront") {
            Ok(Self::BookBoxFront)
        } else if str_equals(s, "BookBoxBack") {
            Ok(Self::BookBoxBack)
        } else if str_equals(s, "Paper3") {
            Ok(Self::Paper3)
        } else if str_equals(s, "Paper4") {
            Ok(Self::Paper4)
        } else if str_equals(s, "Paper5") {
            Ok(Self::Paper5)
        } else if str_equals(s, "Paper6") {
            Ok(Self::Paper6)
        } else if str_equals(s, "Paper7") {
            Ok(Self::Paper7)
        } else if str_equals(s, "Clock1") {
            Ok(Self::Clock1)
        } else if str_equals(s, "ClockNeedle1") {
            Ok(Self::ClockNeedle1)
        } else if str_equals(s, "ShortClockNeedle1") {
            Ok(Self::ShortClockNeedle1)
        } else if str_equals(s, "Hanko") {
            Ok(Self::Hanko)
        } else if str_equals(s, "NextLineIcon") {
            Ok(Self::NextLineIcon)
        } else if str_equals(s, "LargeBookScratchFair1") {
            Ok(Self::LargeBookScratchFair1)
        } else if str_equals(s, "LargeBookScratchFair2") {
            Ok(Self::LargeBookScratchFair2)
        } else if str_equals(s, "LargeBookScratchFair3") {
            Ok(Self::LargeBookScratchFair3)
        } else if str_equals(s, "LargeBookScratchFair4") {
            Ok(Self::LargeBookScratchFair4)
        } else if str_equals(s, "LargeBookScratchBad1") {
            Ok(Self::LargeBookScratchBad1)
        } else if str_equals(s, "LargeBookScratchBad2") {
            Ok(Self::LargeBookScratchBad2)
        } else if str_equals(s, "LargeBookScratchBad3") {
            Ok(Self::LargeBookScratchBad3)
        } else if str_equals(s, "LargeBookScratchBad4") {
            Ok(Self::LargeBookScratchBad4)
        } else if str_equals(s, "ManualPageBookTitles") {
            Ok(Self::ManualPageBookTitles)
        } else if str_equals(s, "ManualPageBorrowingFlow") {
            Ok(Self::ManualPageBorrowingFlow)
        } else if str_equals(s, "ManualPageReturnFlow") {
            Ok(Self::ManualPageReturnFlow)
        } else if str_equals(s, "GoNextPageLeft") {
            Ok(Self::GoNextPageLeft)
        } else if str_equals(s, "GoNextPageRight") {
            Ok(Self::GoNextPageRight)
        } else if str_equals(s, "Library") {
            Ok(Self::Library)
        } else if str_equals(s, "KosuzuTachie1") {
            Ok(Self::KosuzuTachie1)
        } else if str_equals(s, "CheckCircle") {
            Ok(Self::CheckCircle)
        } else if str_equals(s, "MoneyBox") {
            Ok(Self::MoneyBox)
        } else if str_equals(s, "KosuzuSmile1") {
            Ok(Self::KosuzuSmile1)
        } else if str_equals(s, "Coin100Yen") {
            Ok(Self::Coin100Yen)
        } else if str_equals(s, "Coin50Yen") {
            Ok(Self::Coin50Yen)
        } else if str_equals(s, "Coin500Yen") {
            Ok(Self::Coin500Yen)
        } else if str_equals(s, "BaraBG") {
            Ok(Self::BaraBG)
        } else if str_equals(s, "SuzunaanMap") {
            Ok(Self::SuzunaanMap)
        } else {
            Err(())
        }
    }

    /// The texture at position `n` of the resource list.
    pub fn from_u32(n: u32) -> (r: Option<Self>)
        ensures
            r == texture_id_at(n as int),
    {
        match n {
            0 => Some(Self::Ghost1),
            1 => Some(Self::LotusPink),
            2 => Some(Self::LotusBlue),
            3 => Some(Self::LotusYellow),
            4 => Some(Self::TextBackground),
            5 => Some(Self::Paper1),
            6 => Some(Self::Paper2),
            7 => Some(Self::LargeBook1),
            8 => Some(Self::LargeBook2),
            9 => Some(Self::LargeBook3),
            10 => Some(Self::MiddleBook1),
            11 => Some(Self::MiddleBook2),
            12 => Some(Self::MiddleBook3),
            13 => Some(Self::Wood1),
            14 => Some(Self::WafuTexture1),
            15 => Some(Self::WafuTexture2),
            16 => Some(Self::Chobo1),
            17 => Some(Self::ChoicePanel1),
            18 => Some(Self::ChoicePanel2),
            19 => Some(Self::ChoicePanel3),
            20 => Some(Self::ChoicePanel4),
            21 => Some(Self::ChoicePanel5),
            22 => Some(Self::JunkoTachieDefault),
            23 => Some(Self::SightBackground1),
            24 => Some(Self::ArrowRight),
            25 => Some(Self::ArrowLeft),
            26 => Some(Self::KosuzuDotFront1),
            27 => Some(Self::KosuzuDotFront2),
            28 => Some(Self::KosuzuDotFront3),
            29 => Some(Self::KosuzuDotBack1),
            30 => Some(Self::KosuzuDotBack2),
            31 => Some(Self::KosuzuDotBack3),
            32 => Some(Self::KosuzuDotRight1),
            33 => Some(Self::KosuzuDotRight2),
            34 => Some(Self::KosuzuDotRight3),
            35 => Some(Self::KosuzuDotLeft1),
            36 => Some(Self::KosuzuDotLeft2),
            37 => Some(Self::KosuzuDotLeft3),
            38 => Some(Self::StoreButton),
            39 => Some(Self::ResetButton),
            40 => Some(Self::MenuArt1),
            41 => Some(Self::MenuArt2),
            42 => Some(Self::JpHouseTexture),
            43 => Some(Self::BookBoxFront),
            44 => Some(Self::BookBoxBack),
            45 => Some(Self::Paper3),
            46 => Some(Self::Paper4),
            47 => Some(Self::Paper5),
            48 => Some(Self::Paper6),
            49 => Some(Self::Paper7),
            50 => Some(Self::Clock1),
            51 => Some(Self::ClockNeedle1),
            52 => Some(Self::ShortClockNeedle1),
            53 => Some(Self::Hanko),
            54 => Some(Self::NextLineIcon),
            55 => Some(Self::LargeBookScratchFair1),
            56 => Some(Self::LargeBookScratchFair2),
            57 => Some(Self::LargeBookScratchFair3),
            58 => Some(Self::LargeBookScratchFair4),
            59 => Some(Self::LargeBookScratchBad1),
            60 => Some(Self::LargeBookScratchBad2),
            61 => Some(Self::LargeBookScratchBad3),
            62 => Some(Self::LargeBookScratchBad4),
            63 => Some(Self::ManualPageBookTitles),
            64 => Some(Self::ManualPageBorrowingFlow),
            65 => Some(Self::ManualPageReturnFlow),
            66 => Some(Self::GoNextPageLeft),
            67 => Some(Self::GoNextPageRight),
            68 => Some(Self::Library),
            69 => Some(Self::KosuzuTachie1),
            70 => Some(Self::CheckCircle),
            71 => Some(Self::MoneyBox),
            72 => Some(Self::KosuzuSmile1),
            73 => Some(Self::Coin100Yen),
            74 => Some(Self::Coin50Yen),
            75 => Some(Self::Coin500Yen),
            76 => Some(Self::BaraBG),
            77 => Some(Self::SuzunaanMap),
            _ => None,
        }
    }

    /// A texture of the resource list, chosen at random.
    pub fn select_random() -> (r: Self)
        ensures
            r != TextureID::Unknown,
    {
        let n = random_u32() % 78;
        match Self::from_u32(n) {
            Some(t) => t,
            None => {
                proof {
                    law_texture_positions(n as int);
                }
                TextureID::Unknown
            },
        }
    }

    /// One of the four "fair" scratch textures of a large book, chosen at random.
    pub fn random_large_book_scratch_fair() -> (r: TextureID)
        ensures
            r == TextureID::LargeBookScratchFair1 || r == TextureID::LargeBookScratchFair2
                || r == TextureID::LargeBookScratchFair3 || r == TextureID::LargeBookScratchFair4,
    {
        let candidate = [
            TextureID::LargeBookScratchFair1,
            TextureID::LargeBookScratchFair2,
            TextureID::LargeBookScratchFair3,
            TextureID::LargeBookScratchFair4,
        ];
        let picked = random_select(&candidate);
        match picked {
            Some(t) => *t,
            None => TextureID::LargeBookScratchFair1,
        }
    }

    /// One of the four "bad" scratch textures of a large book, chosen at random.
    pub fn random_large_book_scratch_bad() -> (r: TextureID)
        ensures
            r == TextureID::LargeBookScratchBad1 || r == TextureID::LargeBookScratchBad2
                || r == TextureID::LargeBookScratchBad3 || r == TextureID::LargeBookScratchBad4,
    {
        let candidate = [
            TextureID::LargeBookScratchBad1,
            TextureID::LargeBookScratchBad2,
            TextureID::LargeBookScratchBad3,
            TextureID::LargeBookScratchBad4,
        ];
        let picked = random_select(&candidate);
        match picked {
            Some(t) => *t,
            None => TextureID::LargeBookScratchBad1,
        }
    }

}

/// The fonts that the game loads, in the order of the resource list.
#[derive(Debug, Clone, Copy, Eq, PartialEq, Structural)]
pub enum FontID {
    DEFAULT,
    JpFude1,
    CorpMincho,
    Cinema,
    BitMap1,
}

/// The font whose name in the resource files is `s`.
pub open spec fn font_id_named(s: Seq<char>) -> Option<FontID> {
    if s == "Default"@ {
        Some(FontID::DEFAULT)
    } else if s == "JpFude1"@ {
        Some(FontID::JpFude1)
    } else if s == "CorpMincho"@ {
        Some(FontID::CorpMincho)
    } else if s == "Cinema"@ {
        Some(FontID::Cinema)
    } else if s == "BitMap1"@ {
        Some(FontID::BitMap1)
    } else {
        None
    }
}

/// The name of each font, as the game's files write it.
pub open spec fn font_id_name(t: FontID) -> Seq<char> {
    match t {
        FontID::DEFAULT => "Default"@,
        FontID::JpFude1 => "JpFude1"@,
        FontID::CorpMincho => "CorpMincho"@,
        FontID::Cinema => "Cinema"@,
        FontID::BitMap1 => "BitMap1"@,
    }
}

/// Law: the name of every font reads back as that font, and a text that
/// reads as a font is its name.
pub proof fn law_font_name_reads_back(t: FontID, s: Seq<char>)
    ensures
        font_id_named(font_id_name(t)) == Some(t),
        font_id_named(s) == Some(t) ==> s == font_id_name(t),
{
    reveal_strlit("Default");
    reveal_strlit("JpFude1");
    reveal_strlit("CorpMincho");
    reveal_strlit("Cinema");
    reveal_strlit("BitMap1");
    assert("Default"@.len() == 7);
    assert("JpFude1"@.len() == 7);
    assert("CorpMincho"@.len() == 10);
    assert("Cinema"@.len() == 6);
    assert("BitMap1"@.len() == 7);
    assert("BitMap1"@[0] == 'B');
    assert("Default"@[0] == 'D');
    assert("JpFude1"@[0] == 'J');
}

impl FontID {
    /// The font named `s` in the resource files.
    pub fn from_str(s: &str) -> (r: Result<Self, ()>)
        ensures
            r == (match font_id_named(s@) {
                Some(f) => Ok(f),
                None => Err(()),
            }),
    {
        if str_equals(s, "Default") {
            Ok(FontID::DEFAULT)
        } else if str_equals(s, "JpFude1") {
            Ok(FontID::JpFude1)
        } else if str_equals(s, "CorpMincho") {
            Ok(FontID::CorpMincho)
        } else if str_equals(s, "Cinema") {
            Ok(FontID::Cinema)
        } else if str_equals(s, "BitMap1") {
            Ok(FontID::BitMap1)
        } else {
            Err(())
        }
    }
}

/// The textures of frames that are drawn as tile batches.
#[derive(Debug, Clone, Copy, Eq, PartialEq, Structural)]
pub enum TileBatchTextureID {
    OldStyleFrame,
    RedOldStyleFrame,
    TaishoStyle1,
    Suzu1,
    Shoji,
    BlackFrame,
    BlackFrame2,
}

/// The sounds that the game loads, in the order of the resource list.
#[derive(Debug, Clone, Copy, Eq, PartialEq, Structural)]
pub enum SoundID {
    Title,
    SeTurnThePage,
    Unknown,
}

/// The textures of large books.
pub const LARGE_BOOK_TEXTURE: [TextureID; 3] = [
    TextureID::LargeBook1,
    TextureID::LargeBook2,
    TextureID::LargeBook3,
];

/// The textures of middle-sized books.
pub const MIDDLE_BOOK_TEXTURE: [TextureID; 3] = [
    TextureID::MiddleBook1,
    TextureID::MiddleBook2,
    TextureID::MiddleBook3,
];

} // verus!
