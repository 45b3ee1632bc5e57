//! The desktop Brand Theme: colour tokens by role and the type scale.
use vstd::prelude::*;

verus! {

/// A colour as red, green and blue channels.
#[derive(Debug, Clone, Copy, PartialEq, Eq, Structural)]
pub struct Rgb {
    pub red: u8,
    pub green: u8,
    pub blue: u8,
}

/// Colour tokens of the desktop appearance. `copper` and `steel` name the
/// primary and companion accents.
#[derive(Debug, Clone, Copy, PartialEq, Eq, Structural)]
pub struct BrandTheme {
    pub canvas: Rgb,
    pub on_canvas: Rgb,
    pub on_canvas_muted: Rgb,
    pub surface: Rgb,
    pub elevated: Rgb,
    pub field: Rgb,
    pub text: Rgb,
    pub muted: Rgb,
    pub border: Rgb,
    pub border_subtle: Rgb,
    pub copper: Rgb,
    pub on_copper: Rgb,
    pub copper_soft: Rgb,
    pub steel: Rgb,
    pub on_steel: Rgb,
    pub steel_soft: Rgb,
    pub danger: Rgb,
    pub on_danger: Rgb,
    pub danger_soft: Rgb,
    pub on_danger_soft: Rgb,
    pub warning: Rgb,
    pub on_warning: Rgb,
    pub warning_soft: Rgb,
    pub on_warning_soft: Rgb,
    pub success: Rgb,
    pub on_success: Rgb,
    pub success_soft: Rgb,
    pub on_success_soft: Rgb,
}

/// Navy rail, white workspace, blue primary.
pub open spec fn desktop_theme() -> BrandTheme {
    BrandTheme {
        canvas: Rgb { red: 0x0F, green: 0x3A, blue: 0x6B },
        on_canvas: Rgb { red: 0xF4, green: 0xF8, blue: 0xFC },
        on_canvas_muted: Rgb { red: 0xA9, green: 0xC4, blue: 0xE0 },
        surface: Rgb { red: 0xFF, green: 0xFF, blue: 0xFF },
        elevated: Rgb { red: 0xF4, green: 0xF8, blue: 0xFC },
        field: Rgb { red: 0xFF, green: 0xFF, blue: 0xFF },
        text: Rgb { red: 0x1A, green: 0x24, blue: 0x33 },
        muted: Rgb { red: 0x4E, green: 0x62, blue: 0x78 },
        border: Rgb { red: 0xC5, green: 0xD4, blue: 0xE4 },
        border_subtle: Rgb { red: 0xE2, green: 0xEA, blue: 0xF2 },
        copper: Rgb { red: 0x15, green: 0x65, blue: 0xC0 },
        on_copper: Rgb { red: 0xFF, green: 0xFF, blue: 0xFF },
        copper_soft: Rgb { red: 0xE3, green: 0xF0, blue: 0xFC },
        steel: Rgb { red: 0x1E, green: 0x4E, blue: 0x8C },
        on_steel: Rgb { red: 0xFF, green: 0xFF, blue: 0xFF },
        steel_soft: Rgb { red: 0xD6, green: 0xE6, blue: 0xF8 },
        danger: Rgb { red: 0xC6, green: 0x28, blue: 0x28 },
        on_danger: Rgb { red: 0xFF, green: 0xFF, blue: 0xFF },
        danger_soft: Rgb { red: 0xFC, green: 0xE8, blue: 0xE8 },
        on_danger_soft: Rgb { red: 0xB7, green: 0x1C, blue: 0x1C },
        warning: Rgb { red: 0xB2, green: 0x6A, blue: 0x00 },
        on_warning: Rgb { red: 0xFF, green: 0xFF, blue: 0xFF },
        warning_soft: Rgb { red: 0xFF, green: 0xF3, blue: 0xD6 },
        on_warning_soft: Rgb { red: 0x8A, green: 0x5A, blue: 0x00 },
        success: Rgb { red: 0x1B, green: 0x6E, blue: 0x3A },
        on_success: Rgb { red: 0xFF, green: 0xFF, blue: 0xFF },
        success_soft: Rgb { red: 0xE7, green: 0xF4, blue: 0xEA },
        on_success_soft: Rgb { red: 0x18, green: 0x5C, blue: 0x30 },
    }
}

/// Every token role with its colour, in a fixed order.
pub open spec fn theme_roles(theme: BrandTheme) -> Seq<(Seq<char>, Rgb)> {
    seq![
        ("canvas"@, theme.canvas),
        ("on_canvas"@, theme.on_canvas),
        ("on_canvas_muted"@, theme.on_canvas_muted),
        ("surface"@, theme.surface),
        ("elevated"@, theme.elevated),
        ("field"@, theme.field),
        ("text"@, theme.text),
        ("muted"@, theme.muted),
        ("border"@, theme.border),
        ("border_subtle"@, theme.border_subtle),
        ("copper"@, theme.copper),
        ("on_copper"@, theme.on_copper),
        ("copper_soft"@, theme.copper_soft),
        ("steel"@, theme.steel),
        ("on_steel"@, theme.on_steel),
        ("steel_soft"@, theme.steel_soft),
        ("danger"@, theme.danger),
        ("on_danger"@, theme.on_danger),
        ("danger_soft"@, theme.danger_soft),
        ("on_danger_soft"@, theme.on_danger_soft),
        ("warning"@, theme.warning),
        ("on_warning"@, theme.on_warning),
        ("warning_soft"@, theme.warning_soft),
        ("on_warning_soft"@, theme.on_warning_soft),
        ("success"@, theme.success),
        ("on_success"@, theme.on_success),
        ("success_soft"@, theme.success_soft),
        ("on_success_soft"@, theme.on_success_soft)
    ]
}

impl BrandTheme {
    /// The one blue-and-white desktop appearance.
    pub fn desktop() -> (theme: BrandTheme)
        ensures
            theme == desktop_theme(),
    {
        BrandTheme {
            canvas: Rgb { red: 0x0F, green: 0x3A, blue: 0x6B },
            on_canvas: Rgb { red: 0xF4, green: 0xF8, blue: 0xFC },
            on_canvas_muted: Rgb { red: 0xA9, green: 0xC4, blue: 0xE0 },
            surface: Rgb { red: 0xFF, green: 0xFF, blue: 0xFF },
            elevated: Rgb { red: 0xF4, green: 0xF8, blue: 0xFC },
            field: Rgb { red: 0xFF, green: 0xFF, blue: 0xFF },
            text: Rgb { red: 0x1A, green: 0x24, blue: 0x33 },
            muted: Rgb { red: 0x4E, green: 0x62, blue: 0x78 },
            border: Rgb { red: 0xC5, green: 0xD4, blue: 0xE4 },
            border_subtle: Rgb { red: 0xE2, green: 0xEA, blue: 0xF2 },
            copper: Rgb { red: 0x15, green: 0x65, blue: 0xC0 },
            on_copper: Rgb { red: 0xFF, green: 0xFF, blue: 0xFF },
            copper_soft: Rgb { red: 0xE3, green: 0xF0, blue: 0xFC },
            steel: Rgb { red: 0x1E, green: 0x4E, blue: 0x8C },
            on_steel: Rgb { red: 0xFF, green: 0xFF, blue: 0xFF },
            steel_soft: Rgb { red: 0xD6, green: 0xE6, blue: 0xF8 },
            danger: Rgb { red: 0xC6, green: 0x28, blue: 0x28 },
            on_danger: Rgb { red: 0xFF, green: 0xFF, blue: 0xFF },
            danger_soft: Rgb { red: 0xFC, green: 0xE8, blue: 0xE8 },
            on_danger_soft: Rgb { red: 0xB7, green: 0x1C, blue: 0x1C },
            warning: Rgb { red: 0xB2, green: 0x6A, blue: 0x00 },
            on_warning: Rgb { red: 0xFF, green: 0xFF, blue: 0xFF },
            warning_soft: Rgb { red: 0xFF, green: 0xF3, blue: 0xD6 },
            on_warning_soft: Rgb { red: 0x8A, green: 0x5A, blue: 0x00 },
            success: Rgb { red: 0x1B, green: 0x6E, blue: 0x3A },
            on_success: Rgb { red: 0xFF, green: 0xFF, blue: 0xFF },
            success_soft: Rgb { red: 0xE7, green: 0xF4, blue: 0xEA },
            on_success_soft: Rgb { red: 0x18, green: 0x5C, blue: 0x30 },
        }
    }

    pub fn dark() -> (theme: BrandTheme)
        ensures
            theme == desktop_theme(),
    {
        BrandTheme::desktop()
    }

    pub fn light() -> (theme: BrandTheme)
        ensures
            theme == desktop_theme(),
    {
        BrandTheme::desktop()
    }

    /// The appearance does not switch skins with the system's dark mode.
    pub fn for_dark_mode(dark_mode: bool) -> (theme: BrandTheme)
        ensures
            theme == desktop_theme(),
    {
        BrandTheme::desktop()
    }

    /// Every token role with its colour.
    pub fn roles(self) -> (roles: Vec<(&'static str, Rgb)>)
        ensures
            roles@.len() == theme_roles(self).len(),
            forall|i: int| 0 <= i < roles@.len() ==> (#[trigger] roles@[i]).0@ == theme_roles(self)[i].0
                && roles@[i].1 == theme_roles(self)[i].1,
    {
        let mut roles: Vec<(&'static str, Rgb)> = Vec::new();
        roles.push(("canvas", self.canvas));
        roles.push(("on_canvas", self.on_canvas));
        roles.push(("on_canvas_muted", self.on_canvas_muted));
        roles.push(("surface", self.surface));
        roles.push(("elevated", self.elevated));
        roles.push(("field", self.field));
        roles.push(("text", self.text));
        roles.push(("muted", self.muted));
        roles.push(("border", self.border));
        roles.push(("border_subtle", self.border_subtle));
        roles.push(("copper", self.copper));
        roles.push(("on_copper", self.on_copper));
        roles.push(("copper_soft", self.copper_soft));
        roles.push(("steel", self.steel));
        roles.push(("on_steel", self.on_steel));
        roles.push(("steel_soft", self.steel_soft));
        roles.push(("danger", self.danger));
        roles.push(("on_danger", self.on_danger));
        roles.push(("danger_soft", self.danger_soft));
        roles.push(("on_danger_soft", self.on_danger_soft));
        roles.push(("warning", self.warning));
        roles.push(("on_warning", self.on_warning));
        roles.push(("warning_soft", self.warning_soft));
        roles.push(("on_warning_soft", self.on_warning_soft));
        roles.push(("success", self.success));
        roles.push(("on_success", self.on_success));
        roles.push(("success_soft", self.success_soft));
        roles.push(("on_success_soft", self.on_success_soft));
        roles
    }
}

/// The primary and companion accents, danger and warning are four distinct colours.
pub proof fn desktop_accents_are_distinct()
    ensures
        desktop_theme().copper != desktop_theme().steel,
        desktop_theme().copper != desktop_theme().danger,
        desktop_theme().copper != desktop_theme().warning,
        desktop_theme().steel != desktop_theme().danger,
        desktop_theme().steel != desktop_theme().warning,
        desktop_theme().danger != desktop_theme().warning,
{
}

/// No token role is the forbidden magenta, neon mint or teal.
pub proof fn desktop_roles_avoid_forbidden_hues()
    ensures
        forall|i: int| 0 <= i < theme_roles(desktop_theme()).len() ==> {
            let color = #[trigger] theme_roles(desktop_theme())[i].1;
            &&& color != (Rgb { red: 0xFF, green: 0x00, blue: 0x99 })
            &&& color != (Rgb { red: 0x00, green: 0xFF, blue: 0x85 })
            &&& color != (Rgb { red: 0x79, green: 0xD2, blue: 0xC3 })
        },
{
    assert forall|i: int| 0 <= i < theme_roles(desktop_theme()).len() implies {
        let color = #[trigger] theme_roles(desktop_theme())[i].1;
        &&& color != (Rgb { red: 0xFF, green: 0x00, blue: 0x99 })
        &&& color != (Rgb { red: 0x00, green: 0xFF, blue: 0x85 })
        &&& color != (Rgb { red: 0x79, green: 0xD2, blue: 0xC3 })
    } by {
        assert(0 <= i < 28);
    }
}

/// Type roles of the desktop instrument. Titles stay in a tool range.
#[derive(Debug, Clone, Copy, PartialEq, Eq, Structural)]
pub enum TypeRole {
    Eyebrow,
    Title,
    Body,
    Caption,
}

pub open spec fn role_points(role: TypeRole) -> int {
    match role {
        TypeRole::Eyebrow | TypeRole::Caption => 12,
        TypeRole::Title => 20,
        TypeRole::Body => 14,
    }
}

impl TypeRole {
    /// The role's text size in points.
    pub fn points(self) -> (points: u8)
        ensures
            points == role_points(self),
    {
        match self {
            TypeRole::Eyebrow | TypeRole::Caption => 12,
            TypeRole::Title => 20,
            TypeRole::Body => 14,
        }
    }
}

/// Every text role is between 12 and 24 points, the title the largest.
pub proof fn type_roles_stay_in_a_tool_range(role: TypeRole)
    ensures
        12 <= role_points(role) <= 24,
        role_points(role) <= role_points(TypeRole::Title),
{
}

} // verus!
