use vstd::prelude::*;
use crate::text::str_eq;
use crate::types::Type;

verus! {

/// The built-in functions of the `#` package.
#[derive(Clone, Copy, Debug, PartialEq, Eq, Structural)]
pub enum BuiltinPkgFunctions {
    NavigateToUrl,
    GetElementByString,
    ClickElementByString,
    SendTextToElementByString,
    GetAndSwitchToAnyIFrame,
    GetAndSwitchToParentIFrame,
    GetAndSwitchToRootIFrame,
    SetWindowDimension,
    ExtUIGetInputFromLabel,
    ExtUIGetIFrameFromLabel,
    ExtUIGetWindowFromLabel,
    ExtUIGetGroupFromLabel,
    ExtUIInputDateByLabelExact,
    ExtUIInputHtmlByLabelExact,
    ExtUIInputNumberTextboxByLabelExact,
    ExtUIInputTextboxByLabelExact,
    ExtUIInputDropdownUsingTextByLabelExact,
    ExtUIInputDropdownUsingIndexByLabelExact,
    ExtUIInputRadioUsingTextByLabelExact,
    ExtUIInputRadioUsingIndexByLabelExact,
    MUIInputTextboxByLabelExact,
    MUIInputDateByLabelExact,
    MUIInputTimeByLabelExact,
    MUIInputHtmlByLabelExact,
    MUIInputDropdownUsingTextByLabelExact,
    MUIInputDropdownUsingIndexByLabelExact,
    MUIInputRadioUsingTextByLabelExact,
    MUIInputRadioUsingIndexByLabelExact,
}

/// Display data of one parameter of a built-in function.
#[derive(Clone, Copy, Debug, PartialEq, Eq)]
pub struct FunctionArgsMetadata {
    pub display_name: &'static str,
    pub description: &'static str,
    pub arg_type: Type,
    pub default_value: &'static str,
}

/// The UI widget family a built-in function targets.
#[derive(Clone, Copy, Debug, PartialEq, Eq, Structural)]
pub enum TargetUI {
    Any,
    Ext,
    MUI,
}

/// Signature and display data of a built-in function.
#[derive(Clone, Debug, PartialEq, Eq)]
pub struct FunctionMetadata {
    pub name: &'static str,
    pub display_name: &'static str,
    pub description: &'static str,
    pub target_ui: TargetUI,
    pub args: Vec<FunctionArgsMetadata>,
    pub return_type: Type,
}

impl BuiltinPkgFunctions {
    /// The name under which a script calls the function.
    pub open spec fn spec_ident(self) -> Seq<char> {
        match self {
            BuiltinPkgFunctions::NavigateToUrl => "NavigateToUrl"@,
            BuiltinPkgFunctions::GetElementByString => "GetElementByString"@,
            BuiltinPkgFunctions::ClickElementByString => "ClickElementByString"@,
            BuiltinPkgFunctions::SendTextToElementByString => "SendTextToElementByString"@,
            BuiltinPkgFunctions::GetAndSwitchToAnyIFrame => "GetAndSwitchToAnyIFrame"@,
            BuiltinPkgFunctions::GetAndSwitchToParentIFrame => "GetAndSwitchToParentIFrame"@,
            BuiltinPkgFunctions::GetAndSwitchToRootIFrame => "GetAndSwitchToRootIFrame"@,
            BuiltinPkgFunctions::SetWindowDimension => "SetWindowDimension"@,
            BuiltinPkgFunctions::ExtUIGetInputFromLabel => "ExtUIGetInputFromLabel"@,
            BuiltinPkgFunctions::ExtUIGetIFrameFromLabel => "ExtUIGetIFrameFromLabel"@,
            BuiltinPkgFunctions::ExtUIGetWindowFromLabel => "ExtUIGetWindowFromLabel"@,
            BuiltinPkgFunctions::ExtUIGetGroupFromLabel => "ExtUIGetGroupFromLabel"@,
            BuiltinPkgFunctions::ExtUIInputDateByLabelExact => "ExtUIInputDateByLabelExact"@,
            BuiltinPkgFunctions::ExtUIInputHtmlByLabelExact => "ExtUIInputHtmlByLabelExact"@,
            BuiltinPkgFunctions::ExtUIInputNumberTextboxByLabelExact => "ExtUIInputNumberTextboxByLabelExact"@,
            BuiltinPkgFunctions::ExtUIInputTextboxByLabelExact => "ExtUIInputTextboxByLabelExact"@,
            BuiltinPkgFunctions::ExtUIInputDropdownUsingTextByLabelExact => "ExtUIInputDropdownUsingTextByLabelExact"@,
            BuiltinPkgFunctions::ExtUIInputDropdownUsingIndexByLabelExact => "ExtUIInputDropdownUsingIndexByLabelExact"@,
            BuiltinPkgFunctions::ExtUIInputRadioUsingTextByLabelExact => "ExtUIInputRadioUsingTextByLabelExact"@,
            BuiltinPkgFunctions::ExtUIInputRadioUsingIndexByLabelExact => "ExtUIInputRadioUsingIndexByLabelExact"@,
            BuiltinPkgFunctions::MUIInputTextboxByLabelExact => "MUIInputTextboxByLabelExact"@,
            BuiltinPkgFunctions::MUIInputDateByLabelExact => "MUIInputDateByLabelExact"@,
            BuiltinPkgFunctions::MUIInputTimeByLabelExact => "MUIInputTimeByLabelExact"@,
            BuiltinPkgFunctions::MUIInputHtmlByLabelExact => "MUIInputHtmlByLabelExact"@,
            BuiltinPkgFunctions::MUIInputDropdownUsingTextByLabelExact => "MUIInputDropdownUsingTextByLabelExact"@,
            BuiltinPkgFunctions::MUIInputDropdownUsingIndexByLabelExact => "MUIInputDropdownUsingIndexByLabelExact"@,
            BuiltinPkgFunctions::MUIInputRadioUsingTextByLabelExact => "MUIInputRadioUsingTextByLabelExact"@,
            BuiltinPkgFunctions::MUIInputRadioUsingIndexByLabelExact => "MUIInputRadioUsingIndexByLabelExact"@,
        }
    }

    /// The name, display name and description the catalog shows; the name
    /// is the one scripts call the function by.
    pub open spec fn display_text(self) -> (Seq<char>, Seq<char>, Seq<char>) {
        match self {
            BuiltinPkgFunctions::NavigateToUrl => ("NavigateToUrl"@, "Navigate To Url"@, "Navigate current page to Url"@),
            BuiltinPkgFunctions::GetElementByString => ("GetElementByString"@, "Get Element By String"@, "Get element by string specified"@),
            BuiltinPkgFunctions::ClickElementByString => ("ClickElementByString"@, "Click Element By String"@, "Click element by string specified"@),
            BuiltinPkgFunctions::SendTextToElementByString => ("SendTextToElementByString"@, "Send text to Element By String"@, "Send text to element by string specified"@),
            BuiltinPkgFunctions::ExtUIGetInputFromLabel => ("ExtUIGetInputFromLabel"@, "Get Input From Label"@, "Get input element from label text"@),
            BuiltinPkgFunctions::ExtUIGetIFrameFromLabel => ("ExtUIGetIFrameFromLabel"@, "Get IFrame From Label"@, "Get IFrame element from label text"@),
            BuiltinPkgFunctions::ExtUIGetWindowFromLabel => ("ExtUIGetWindowFromLabel"@, "Get Window From Label"@, "Get window element from title text"@),
            BuiltinPkgFunctions::ExtUIGetGroupFromLabel => ("ExtUIGetGroupFromLabel"@, "Get Group From Label"@, "Get group element from label text"@),
            BuiltinPkgFunctions::ExtUIInputDateByLabelExact => ("ExtUIInputDateByLabelExact"@, "Input Date By Label Exact"@, "Input date on form by label form"@),
            BuiltinPkgFunctions::ExtUIInputHtmlByLabelExact => ("ExtUIInputHtmlByLabelExact"@, "Input Html By Label Exact"@, "Input html on form by label form"@),
            BuiltinPkgFunctions::ExtUIInputNumberTextboxByLabelExact => ("ExtUIInputNumberTextboxByLabelExact"@, "Input Number Textbox By Label Exact"@, "Input number textbox on form by label form"@),
            BuiltinPkgFunctions::ExtUIInputTextboxByLabelExact => ("ExtUIInputTextboxByLabelExact"@, "Input Textbox By Label Exact"@, "Input textbox on form by label form"@),
            BuiltinPkgFunctions::ExtUIInputDropdownUsingTextByLabelExact => ("ExtUIInputDropdownUsingTextByLabelExact"@, "Input Dropdown Using Text By Label Exact"@, "Input dropdown using text on form by label form"@),
            BuiltinPkgFunctions::ExtUIInputDropdownUsingIndexByLabelExact => ("ExtUIInputDropdownUsingIndexByLabelExact"@, "Input Dropdown Using Index By Label Exact"@, "Input dropdown using index on form by label form"@),
            BuiltinPkgFunctions::ExtUIInputRadioUsingTextByLabelExact => ("ExtUIInputRadioUsingTextByLabelExact"@, "Input Radio Using Text By Label Exact"@, "Input radio using text on form by label form"@),
            BuiltinPkgFunctions::ExtUIInputRadioUsingIndexByLabelExact => ("ExtUIInputRadioUsingIndexByLabelExact"@, "Input Radio Using Index By Label Exact"@, "Input radio using index on form by label form"@),
            BuiltinPkgFunctions::GetAndSwitchToAnyIFrame => ("GetAndSwitchToAnyIFrame"@, "Get And Switch To Any IFrame"@, "Find any IFrame within current frame, and switch into it."@),
            BuiltinPkgFunctions::GetAndSwitchToParentIFrame => ("GetAndSwitchToParentIFrame"@, "Get And Switch To Parent IFrame"@, "Switch into parent IFrame"@),
            BuiltinPkgFunctions::GetAndSwitchToRootIFrame => ("GetAndSwitchToRootIFrame"@, "Get And Switch To Root IFrame"@, "Switch to Root (top most) IFrame"@),
            BuiltinPkgFunctions::SetWindowDimension => ("SetWindowDimension"@, "Set Window Dimension"@, "Set window mode to windowed, and resize window"@),
            BuiltinPkgFunctions::MUIInputTextboxByLabelExact => ("MUIInputTextboxByLabelExact"@, "Input Textbox By Label Exact"@, "Input textbox on form by label form"@),
            BuiltinPkgFunctions::MUIInputDropdownUsingTextByLabelExact => ("MUIInputDropdownUsingTextByLabelExact"@, "Input Dropdown By Label Exact"@, "Input dropdown on form by label form"@),
            BuiltinPkgFunctions::MUIInputDropdownUsingIndexByLabelExact => ("MUIInputDropdownUsingIndexByLabelExact"@, "Input Dropdown By Label Exact"@, "Input dropdown on form by label form"@),
            BuiltinPkgFunctions::MUIInputRadioUsingTextByLabelExact => ("MUIInputRadioUsingTextByLabelExact"@, "Input Radio Using Text By Label Exact"@, "Input Radio on form by label form"@),
            BuiltinPkgFunctions::MUIInputRadioUsingIndexByLabelExact => ("MUIInputRadioUsingIndexByLabelExact"@, "Input Radio Using Index By Label Exact"@, "Input Radio on form by label form"@),
            BuiltinPkgFunctions::MUIInputDateByLabelExact => ("MUIInputDateByLabelExact"@, "Input Date By Label Exact"@, "Input date on form by label form"@),
            BuiltinPkgFunctions::MUIInputTimeByLabelExact => ("MUIInputTimeByLabelExact"@, "Input Time By Label Exact"@, "Input time on form by label form"@),
            BuiltinPkgFunctions::MUIInputHtmlByLabelExact => ("MUIInputHtmlByLabelExact"@, "Input HTML By Label Exact"@, "Input HTML on form by label form"@),
        }
    }

    /// Display name, description and default value of each parameter.
    pub open spec fn arg_texts(self) -> Seq<(Seq<char>, Seq<char>, Seq<char>)> {
        match self {
            BuiltinPkgFunctions::NavigateToUrl => seq![
                ("URL"@, "URL to navigate to"@, "https://www.google.com"@),
            ],
            BuiltinPkgFunctions::GetElementByString => seq![
                ("String"@, "String to find"@, ""@),
                ("By Option"@, "The attribute to match with the string"@, "ByOption.Text"@),
                ("Tag"@, "Tag to match for the element"@, "*"@),
                ("Exact Match"@, "Match the whole string"@, "true"@),
            ],
            BuiltinPkgFunctions::ClickElementByString => seq![
                ("String"@, "String to find"@, ""@),
                ("By Option"@, "The attribute to match with the string"@, "ByOption.Text"@),
                ("Tag"@, "Tag to match for the element"@, "*"@),
                ("Exact Match"@, "Match the whole string"@, "true"@),
            ],
            BuiltinPkgFunctions::SendTextToElementByString => seq![
                ("String"@, "String to find"@, ""@),
                ("Input"@, "String to input"@, ""@),
                ("By Option"@, "The attribute to match with the string"@, "ByOption.Text"@),
                ("Tag"@, "Tag to match for the element"@, "*"@),
                ("Exact Match"@, "Match the whole string"@, "true"@),
            ],
            BuiltinPkgFunctions::ExtUIGetInputFromLabel => seq![
                ("Text"@, "Text label to find"@, ""@),
            ],
            BuiltinPkgFunctions::ExtUIGetIFrameFromLabel => seq![
                ("Text"@, "Text label to find"@, ""@),
            ],
            BuiltinPkgFunctions::ExtUIGetWindowFromLabel => seq![
                ("Text"@, "Text label to find"@, ""@),
            ],
            BuiltinPkgFunctions::ExtUIGetGroupFromLabel => seq![
                ("Text"@, "Text label to find"@, ""@),
            ],
            BuiltinPkgFunctions::ExtUIInputDateByLabelExact => seq![
                ("Label"@, "Label to find"@, ""@),
                ("Input"@, "Input to send"@, ""@),
            ],
            BuiltinPkgFunctions::ExtUIInputHtmlByLabelExact => seq![
                ("Label"@, "Label to find"@, ""@),
                ("Input"@, "Input to send"@, ""@),
            ],
            BuiltinPkgFunctions::ExtUIInputNumberTextboxByLabelExact => seq![
                ("Label"@, "Label to find"@, ""@),
                ("Input"@, "Input to send"@, ""@),
            ],
            BuiltinPkgFunctions::ExtUIInputTextboxByLabelExact => seq![
                ("Label"@, "Label to find"@, ""@),
                ("Input"@, "Input to send"@, ""@),
            ],
            BuiltinPkgFunctions::ExtUIInputDropdownUsingTextByLabelExact => seq![
                ("Label"@, "Label to find"@, ""@),
                ("Input"@, "Input to send"@, ""@),
            ],
            BuiltinPkgFunctions::ExtUIInputDropdownUsingIndexByLabelExact => seq![
                ("Label"@, "Label to find"@, ""@),
                ("Input"@, "Input to send"@, ""@),
            ],
            BuiltinPkgFunctions::ExtUIInputRadioUsingTextByLabelExact => seq![
                ("Label"@, "Label to find"@, ""@),
                ("Input"@, "Input to send"@, ""@),
            ],
            BuiltinPkgFunctions::ExtUIInputRadioUsingIndexByLabelExact => seq![
                ("Label"@, "Label to find"@, ""@),
                ("Input"@, "Input to send"@, ""@),
            ],
            BuiltinPkgFunctions::GetAndSwitchToAnyIFrame => seq![],
            BuiltinPkgFunctions::GetAndSwitchToParentIFrame => seq![],
            BuiltinPkgFunctions::GetAndSwitchToRootIFrame => seq![],
            BuiltinPkgFunctions::SetWindowDimension => seq![
                ("Width"@, "Width of the window"@, "800"@),
                ("Height"@, "Height of the window"@, "600"@),
            ],
            BuiltinPkgFunctions::MUIInputTextboxByLabelExact => seq![
                ("Label"@, "Label to find"@, ""@),
                ("Input"@, "Input to send"@, ""@),
            ],
            BuiltinPkgFunctions::MUIInputDropdownUsingTextByLabelExact => seq![
                ("Label"@, "Label to find"@, ""@),
                ("Input"@, "Input to send"@, ""@),
            ],
            BuiltinPkgFunctions::MUIInputDropdownUsingIndexByLabelExact => seq![
                ("Label"@, "Label to find"@, ""@),
                ("Input"@, "Input to send"@, ""@),
            ],
            BuiltinPkgFunctions::MUIInputRadioUsingTextByLabelExact => seq![
                ("Label"@, "Label to find"@, ""@),
                ("Input"@, "Input to send"@, ""@),
            ],
            BuiltinPkgFunctions::MUIInputRadioUsingIndexByLabelExact => seq![
                ("Label"@, "Label to find"@, ""@),
                ("Input"@, "Input to send"@, ""@),
            ],
            BuiltinPkgFunctions::MUIInputDateByLabelExact => seq![
                ("Label"@, "Label to find"@, ""@),
                ("Input"@, "Input to send"@, ""@),
            ],
            BuiltinPkgFunctions::MUIInputTimeByLabelExact => seq![
                ("Label"@, "Label to find"@, ""@),
                ("Input"@, "Input to send"@, ""@),
            ],
            BuiltinPkgFunctions::MUIInputHtmlByLabelExact => seq![
                ("Label"@, "Label to find"@, ""@),
                ("Input"@, "Input to send"@, ""@),
            ],
        }
    }

    /// The parameter types, in order.
    pub open spec fn param_types(self) -> Seq<Type> {
        match self {
            BuiltinPkgFunctions::NavigateToUrl => seq![Type::Str],
            BuiltinPkgFunctions::GetElementByString | BuiltinPkgFunctions::ClickElementByString => seq![
                Type::Str,
                Type::ByOption,
                Type::Str,
                Type::Bool,
            ],
            BuiltinPkgFunctions::SendTextToElementByString => seq![
                Type::Str,
                Type::Str,
                Type::ByOption,
                Type::Str,
                Type::Bool,
            ],
            BuiltinPkgFunctions::GetAndSwitchToAnyIFrame
            | BuiltinPkgFunctions::GetAndSwitchToParentIFrame
            | BuiltinPkgFunctions::GetAndSwitchToRootIFrame => seq![],
            BuiltinPkgFunctions::SetWindowDimension => seq![Type::Number, Type::Number],
            BuiltinPkgFunctions::ExtUIGetInputFromLabel
            | BuiltinPkgFunctions::ExtUIGetIFrameFromLabel
            | BuiltinPkgFunctions::ExtUIGetWindowFromLabel
            | BuiltinPkgFunctions::ExtUIGetGroupFromLabel => seq![Type::Str],
            _ => seq![Type::Str, Type::Str],
        }
    }

    /// The type a call of the function has.
    pub open spec fn return_type(self) -> Type {
        Type::Void
    }

    /// The widget family the function is written for.
    pub open spec fn target_ui(self) -> TargetUI {
        match self {
            BuiltinPkgFunctions::ExtUIGetIFrameFromLabel
            | BuiltinPkgFunctions::ExtUIGetWindowFromLabel
            | BuiltinPkgFunctions::ExtUIGetGroupFromLabel
            | BuiltinPkgFunctions::ExtUIInputDateByLabelExact
            | BuiltinPkgFunctions::ExtUIInputHtmlByLabelExact
            | BuiltinPkgFunctions::ExtUIInputNumberTextboxByLabelExact
            | BuiltinPkgFunctions::ExtUIInputTextboxByLabelExact
            | BuiltinPkgFunctions::ExtUIInputDropdownUsingTextByLabelExact
            | BuiltinPkgFunctions::ExtUIInputDropdownUsingIndexByLabelExact
            | BuiltinPkgFunctions::ExtUIInputRadioUsingTextByLabelExact
            | BuiltinPkgFunctions::ExtUIInputRadioUsingIndexByLabelExact => TargetUI::Ext,
            BuiltinPkgFunctions::MUIInputTextboxByLabelExact
            | BuiltinPkgFunctions::MUIInputDateByLabelExact
            | BuiltinPkgFunctions::MUIInputTimeByLabelExact
            | BuiltinPkgFunctions::MUIInputHtmlByLabelExact
            | BuiltinPkgFunctions::MUIInputDropdownUsingTextByLabelExact
            | BuiltinPkgFunctions::MUIInputDropdownUsingIndexByLabelExact
            | BuiltinPkgFunctions::MUIInputRadioUsingTextByLabelExact
            | BuiltinPkgFunctions::MUIInputRadioUsingIndexByLabelExact => TargetUI::MUI,
            _ => TargetUI::Any,
        }
    }

    /// The name under which a script calls the function.
    pub fn ident(&self) -> (r: &'static str)
        ensures
            r@ == self.spec_ident(),
    {
        match self {
            BuiltinPkgFunctions::NavigateToUrl => "NavigateToUrl",
            BuiltinPkgFunctions::GetElementByString => "GetElementByString",
            BuiltinPkgFunctions::ClickElementByString => "ClickElementByString",
            BuiltinPkgFunctions::SendTextToElementByString => "SendTextToElementByString",
            BuiltinPkgFunctions::GetAndSwitchToAnyIFrame => "GetAndSwitchToAnyIFrame",
            BuiltinPkgFunctions::GetAndSwitchToParentIFrame => "GetAndSwitchToParentIFrame",
            BuiltinPkgFunctions::GetAndSwitchToRootIFrame => "GetAndSwitchToRootIFrame",
            BuiltinPkgFunctions::SetWindowDimension => "SetWindowDimension",
            BuiltinPkgFunctions::ExtUIGetInputFromLabel => "ExtUIGetInputFromLabel",
            BuiltinPkgFunctions::ExtUIGetIFrameFromLabel => "ExtUIGetIFrameFromLabel",
            BuiltinPkgFunctions::ExtUIGetWindowFromLabel => "ExtUIGetWindowFromLabel",
            BuiltinPkgFunctions::ExtUIGetGroupFromLabel => "ExtUIGetGroupFromLabel",
            BuiltinPkgFunctions::ExtUIInputDateByLabelExact => "ExtUIInputDateByLabelExact",
            BuiltinPkgFunctions::ExtUIInputHtmlByLabelExact => "ExtUIInputHtmlByLabelExact",
            BuiltinPkgFunctions::ExtUIInputNumberTextboxByLabelExact => "ExtUIInputNumberTextboxByLabelExact",
            BuiltinPkgFunctions::ExtUIInputTextboxByLabelExact => "ExtUIInputTextboxByLabelExact",
            BuiltinPkgFunctions::ExtUIInputDropdownUsingTextByLabelExact => "ExtUIInputDropdownUsingTextByLabelExact",
            BuiltinPkgFunctions::ExtUIInputDropdownUsingIndexByLabelExact => "ExtUIInputDropdownUsingIndexByLabelExact",
            BuiltinPkgFunctions::ExtUIInputRadioUsingTextByLabelExact => "ExtUIInputRadioUsingTextByLabelExact",
            BuiltinPkgFunctions::ExtUIInputRadioUsingIndexByLabelExact => "ExtUIInputRadioUsingIndexByLabelExact",
            BuiltinPkgFunctions::MUIInputTextboxByLabelExact => "MUIInputTextboxByLabelExact",
            BuiltinPkgFunctions::MUIInputDateByLabelExact => "MUIInputDateByLabelExact",
            BuiltinPkgFunctions::MUIInputTimeByLabelExact => "MUIInputTimeByLabelExact",
            BuiltinPkgFunctions::MUIInputHtmlByLabelExact => "MUIInputHtmlByLabelExact",
            BuiltinPkgFunctions::MUIInputDropdownUsingTextByLabelExact => "MUIInputDropdownUsingTextByLabelExact",
            BuiltinPkgFunctions::MUIInputDropdownUsingIndexByLabelExact => "MUIInputDropdownUsingIndexByLabelExact",
            BuiltinPkgFunctions::MUIInputRadioUsingTextByLabelExact => "MUIInputRadioUsingTextByLabelExact",
            BuiltinPkgFunctions::MUIInputRadioUsingIndexByLabelExact => "MUIInputRadioUsingIndexByLabelExact",
        }
    }

    /// Looks a built-in function up by the name a script calls it with.
    pub fn from_name(name: &str) -> (r: Option<BuiltinPkgFunctions>)
        ensures
            r == lookup_builtin(name@),
            match r {
                Some(f) => f.spec_ident() == name@,
                None => forall|f: BuiltinPkgFunctions| f.spec_ident() != name@,
            },
    {
        let all = all_functions();
        assert(catalog().subrange(0, catalog().len() as int) =~= catalog());
        let mut i: usize = 0;
        while i < all.len()
            invariant
                0 <= i <= all@.len(),
                forall|f: BuiltinPkgFunctions| #[trigger] all@.contains(f),
                forall|j: int| 0 <= j < i ==> all@[j].spec_ident() != name@,
                all@ == catalog(),
                lookup_builtin(name@) == first_named(catalog().subrange(i as int, catalog().len() as int), name@),
            decreases all@.len() - i,
        {
            let f = all[i];
            let ghost rest = catalog().subrange(i as int, catalog().len() as int);
            assert(rest[0] == f);
            assert(rest.drop_first() =~= catalog().subrange(i + 1, catalog().len() as int));
            if str_eq(f.ident(), name) {
                return Some(f);
            }
            i = i + 1;
        }
        assert forall|f: BuiltinPkgFunctions| f.spec_ident() != name@ by {
            assert(all@.contains(f));
        }
        assert(catalog().subrange(i as int, catalog().len() as int).len() == 0);
        None
    }
}

/// Every built-in function, once each, in catalog order.
pub open spec fn catalog() -> Seq<BuiltinPkgFunctions> {
    seq![
        BuiltinPkgFunctions::NavigateToUrl,
        BuiltinPkgFunctions::GetElementByString,
        BuiltinPkgFunctions::ClickElementByString,
        BuiltinPkgFunctions::SendTextToElementByString,
        BuiltinPkgFunctions::GetAndSwitchToAnyIFrame,
        BuiltinPkgFunctions::GetAndSwitchToParentIFrame,
        BuiltinPkgFunctions::GetAndSwitchToRootIFrame,
        BuiltinPkgFunctions::SetWindowDimension,
        BuiltinPkgFunctions::ExtUIGetInputFromLabel,
        BuiltinPkgFunctions::ExtUIGetIFrameFromLabel,
        BuiltinPkgFunctions::ExtUIGetWindowFromLabel,
        BuiltinPkgFunctions::ExtUIGetGroupFromLabel,
        BuiltinPkgFunctions::ExtUIInputDateByLabelExact,
        BuiltinPkgFunctions::ExtUIInputHtmlByLabelExact,
        BuiltinPkgFunctions::ExtUIInputNumberTextboxByLabelExact,
        BuiltinPkgFunctions::ExtUIInputTextboxByLabelExact,
        BuiltinPkgFunctions::ExtUIInputDropdownUsingTextByLabelExact,
        BuiltinPkgFunctions::ExtUIInputDropdownUsingIndexByLabelExact,
        BuiltinPkgFunctions::ExtUIInputRadioUsingTextByLabelExact,
        BuiltinPkgFunctions::ExtUIInputRadioUsingIndexByLabelExact,
        BuiltinPkgFunctions::MUIInputTextboxByLabelExact,
        BuiltinPkgFunctions::MUIInputDateByLabelExact,
        BuiltinPkgFunctions::MUIInputTimeByLabelExact,
        BuiltinPkgFunctions::MUIInputHtmlByLabelExact,
        BuiltinPkgFunctions::MUIInputDropdownUsingTextByLabelExact,
        BuiltinPkgFunctions::MUIInputDropdownUsingIndexByLabelExact,
        BuiltinPkgFunctions::MUIInputRadioUsingTextByLabelExact,
        BuiltinPkgFunctions::MUIInputRadioUsingIndexByLabelExact,
    ]
}

/// The first function of `fs` that scripts call by `name`.
pub open spec fn first_named(fs: Seq<BuiltinPkgFunctions>, name: Seq<char>) -> Option<BuiltinPkgFunctions>
    decreases fs.len(),
{
    if fs.len() == 0 {
        None
    } else if fs[0].spec_ident() == name {
        Some(fs[0])
    } else {
        first_named(fs.drop_first(), name)
    }
}

/// The built-in function that scripts call by `name`, if any.
pub open spec fn lookup_builtin(name: Seq<char>) -> Option<BuiltinPkgFunctions> {
    first_named(catalog(), name)
}

/// Every built-in function, once each.
pub fn all_functions() -> (r: Vec<BuiltinPkgFunctions>)
    ensures
        r@ == catalog(),
        forall|f: BuiltinPkgFunctions| #[trigger] r@.contains(f),
{
    let r = vec![
        BuiltinPkgFunctions::NavigateToUrl,
        BuiltinPkgFunctions::GetElementByString,
        BuiltinPkgFunctions::ClickElementByString,
        BuiltinPkgFunctions::SendTextToElementByString,
        BuiltinPkgFunctions::GetAndSwitchToAnyIFrame,
        BuiltinPkgFunctions::GetAndSwitchToParentIFrame,
        BuiltinPkgFunctions::GetAndSwitchToRootIFrame,
        BuiltinPkgFunctions::SetWindowDimension,
        BuiltinPkgFunctions::ExtUIGetInputFromLabel,
        BuiltinPkgFunctions::ExtUIGetIFrameFromLabel,
        BuiltinPkgFunctions::ExtUIGetWindowFromLabel,
        BuiltinPkgFunctions::ExtUIGetGroupFromLabel,
        BuiltinPkgFunctions::ExtUIInputDateByLabelExact,
        BuiltinPkgFunctions::ExtUIInputHtmlByLabelExact,
        BuiltinPkgFunctions::ExtUIInputNumberTextboxByLabelExact,
        BuiltinPkgFunctions::ExtUIInputTextboxByLabelExact,
        BuiltinPkgFunctions::ExtUIInputDropdownUsingTextByLabelExact,
        BuiltinPkgFunctions::ExtUIInputDropdownUsingIndexByLabelExact,
        BuiltinPkgFunctions::ExtUIInputRadioUsingTextByLabelExact,
        BuiltinPkgFunctions::ExtUIInputRadioUsingIndexByLabelExact,
        BuiltinPkgFunctions::MUIInputTextboxByLabelExact,
        BuiltinPkgFunctions::MUIInputDateByLabelExact,
        BuiltinPkgFunctions::MUIInputTimeByLabelExact,
        BuiltinPkgFunctions::MUIInputHtmlByLabelExact,
        BuiltinPkgFunctions::MUIInputDropdownUsingTextByLabelExact,
        BuiltinPkgFunctions::MUIInputDropdownUsingIndexByLabelExact,
        BuiltinPkgFunctions::MUIInputRadioUsingTextByLabelExact,
        BuiltinPkgFunctions::MUIInputRadioUsingIndexByLabelExact,
    ];
    r
}

/// Signature and display data of a built-in function.
pub fn get_fn_metadata(builtin_fn: &BuiltinPkgFunctions) -> (r: FunctionMetadata)
    ensures
        r.args@.len() == builtin_fn.param_types().len(),
        forall|i: int|
            0 <= i < r.args@.len() ==> #[trigger] r.args@[i].arg_type == builtin_fn.param_types()[i],
        r.return_type == builtin_fn.return_type(),
        r.target_ui == builtin_fn.target_ui(),
        r.name@ == builtin_fn.spec_ident(),
        (r.name@, r.display_name@, r.description@) == builtin_fn.display_text(),
        r.args@.len() == builtin_fn.arg_texts().len(),
        forall|i: int|
            0 <= i < r.args@.len() ==> (#[trigger] r.args@[i].display_name@, r.args@[i].description@, r.args@[i].default_value@)
                == builtin_fn.arg_texts()[i],
{
    match builtin_fn {

        BuiltinPkgFunctions::NavigateToUrl => FunctionMetadata {
            name: "NavigateToUrl",
            display_name: "Navigate To Url",
            description: "Navigate current page to Url",
            args: vec![FunctionArgsMetadata {
                display_name: "URL",
                description: "URL to navigate to",
                arg_type: Type::Str,
                default_value: "https://www.google.com",
            }],
            return_type: Type::Void,
            target_ui: TargetUI::Any,
        },
        BuiltinPkgFunctions::GetElementByString => FunctionMetadata {
            name: "GetElementByString",
            display_name: "Get Element By String",
            description: "Get element by string specified",
            args: vec![
                FunctionArgsMetadata {
                    display_name: "String",
                    description: "String to find",
                    arg_type: Type::Str,
                    default_value: "",
                },
                FunctionArgsMetadata {
                    display_name: "By Option",
                    description: "The attribute to match with the string",
                    arg_type: Type::ByOption,
                    default_value: "ByOption.Text",
                },
                FunctionArgsMetadata {
                    display_name: "Tag",
                    description: "Tag to match for the element",
                    arg_type: Type::Str,
                    default_value: "*",
                },
                FunctionArgsMetadata {
                    display_name: "Exact Match",
                    description: "Match the whole string",
                    arg_type: Type::Bool,
                    default_value: "true",
                },
            ],
            return_type: Type::Void,
            target_ui: TargetUI::Any,
        },
        BuiltinPkgFunctions::ClickElementByString => FunctionMetadata {
            name: "ClickElementByString",
            display_name: "Click Element By String",
            description: "Click element by string specified",
            args: vec![
                FunctionArgsMetadata {
                    display_name: "String",
                    description: "String to find",
                    arg_type: Type::Str,
                    default_value: "",
                },
                FunctionArgsMetadata {
                    display_name: "By Option",
                    description: "The attribute to match with the string",
                    arg_type: Type::ByOption,
                    default_value: "ByOption.Text",
                },
                FunctionArgsMetadata {
                    display_name: "Tag",
                    description: "Tag to match for the element",
                    arg_type: Type::Str,
                    default_value: "*",
                },
                FunctionArgsMetadata {
                    display_name: "Exact Match",
                    description: "Match the whole string",
                    arg_type: Type::Bool,
                    default_value: "true",
                },
            ],
            return_type: Type::Void,
            target_ui: TargetUI::Any,
        },
        BuiltinPkgFunctions::SendTextToElementByString => FunctionMetadata {
            name: "SendTextToElementByString",
            display_name: "Send text to Element By String",
            description: "Send text to element by string specified",
            args: vec![
                FunctionArgsMetadata {
                    display_name: "String",
                    description: "String to find",
                    arg_type: Type::Str,
                    default_value: "",
                },
                FunctionArgsMetadata {
                    display_name: "Input",
                    description: "String to input",
                    arg_type: Type::Str,
                    default_value: "",
                },
                FunctionArgsMetadata {
                    display_name: "By Option",
                    description: "The attribute to match with the string",
                    arg_type: Type::ByOption,
                    default_value: "ByOption.Text",
                },
                FunctionArgsMetadata {
                    display_name: "Tag",
                    description: "Tag to match for the element",
                    arg_type: Type::Str,
                    default_value: "*",
                },
                FunctionArgsMetadata {
                    display_name: "Exact Match",
                    description: "Match the whole string",
                    arg_type: Type::Bool,
                    default_value: "true",
                },
            ],
            return_type: Type::Void,
            target_ui: TargetUI::Any,
        },
        BuiltinPkgFunctions::ExtUIGetInputFromLabel => FunctionMetadata {
            name: "ExtUIGetInputFromLabel",
            display_name: "Get Input From Label",
            description: "Get input element from label text",
            args: vec![FunctionArgsMetadata {
                display_name: "Text",
                description: "Text label to find",
                arg_type: Type::Str,
                default_value: "",
            }],
            return_type: Type::Void,
            target_ui: TargetUI::Any,
        },
        BuiltinPkgFunctions::ExtUIGetIFrameFromLabel => FunctionMetadata {
            name: "ExtUIGetIFrameFromLabel",
            display_name: "Get IFrame From Label",
            description: "Get IFrame element from label text",
            args: vec![FunctionArgsMetadata {
                display_name: "Text",
                description: "Text label to find",
                arg_type: Type::Str,
                default_value: "",
            }],
            return_type: Type::Void,
            target_ui: TargetUI::Ext,
        },
        BuiltinPkgFunctions::ExtUIGetWindowFromLabel => FunctionMetadata {
            name: "ExtUIGetWindowFromLabel",
            display_name: "Get Window From Label",
            description: "Get window element from title text",
            args: vec![FunctionArgsMetadata {
                display_name: "Text",
                description: "Text label to find",
                arg_type: Type::Str,
                default_value: "",
            }],
            return_type: Type::Void,
            target_ui: TargetUI::Ext,
        },
        BuiltinPkgFunctions::ExtUIGetGroupFromLabel => FunctionMetadata {
            name: "ExtUIGetGroupFromLabel",
            display_name: "Get Group From Label",
            description: "Get group element from label text",
            args: vec![FunctionArgsMetadata {
                display_name: "Text",
                description: "Text label to find",
                arg_type: Type::Str,
                default_value: "",
            }],
            return_type: Type::Void,
            target_ui: TargetUI::Ext,
        },
        BuiltinPkgFunctions::ExtUIInputDateByLabelExact => FunctionMetadata {
            name: "ExtUIInputDateByLabelExact",
            display_name: "Input Date By Label Exact",
            description: "Input date on form by label form",
            args: vec![
                FunctionArgsMetadata {
                    display_name: "Label",
                    description: "Label to find",
                    arg_type: Type::Str,
                    default_value: "",
                },
                FunctionArgsMetadata {
                    display_name: "Input",
                    description: "Input to send",
                    arg_type: Type::Str,
                    default_value: "",
                },
            ],
            return_type: Type::Void,
            target_ui: TargetUI::Ext,
        },
        BuiltinPkgFunctions::ExtUIInputHtmlByLabelExact => FunctionMetadata {
            name: "ExtUIInputHtmlByLabelExact",
            display_name: "Input Html By Label Exact",
            description: "Input html on form by label form",
            args: vec![
                FunctionArgsMetadata {
                    display_name: "Label",
                    description: "Label to find",
                    arg_type: Type::Str,
                    default_value: "",
                },
                FunctionArgsMetadata {
                    display_name: "Input",
                    description: "Input to send",
                    arg_type: Type::Str,
                    default_value: "",
                },
            ],
            return_type: Type::Void,
            target_ui: TargetUI::Ext,
        },
        BuiltinPkgFunctions::ExtUIInputNumberTextboxByLabelExact => FunctionMetadata {
            name: "ExtUIInputNumberTextboxByLabelExact",
            display_name: "Input Number Textbox By Label Exact",
            description: "Input number textbox on form by label form",
            args: vec![
                FunctionArgsMetadata {
                    display_name: "Label",
                    description: "Label to find",
                    arg_type: Type::Str,
                    default_value: "",
                },
                FunctionArgsMetadata {
                    display_name: "Input",
                    description: "Input to send",
                    arg_type: Type::Str,
                    default_value: "",
                },
            ],
            return_type: Type::Void,
            target_ui: TargetUI::Ext,
        },
        BuiltinPkgFunctions::ExtUIInputTextboxByLabelExact => FunctionMetadata {
            name: "ExtUIInputTextboxByLabelExact",
            display_name: "Input Textbox By Label Exact",
            description: "Input textbox on form by label form",
            args: vec![
                FunctionArgsMetadata {
                    display_name: "Label",
                    description: "Label to find",
                    arg_type: Type::Str,
                    default_value: "",
                },
                FunctionArgsMetadata {
                    display_name: "Input",
                    description: "Input to send",
                    arg_type: Type::Str,
                    default_value: "",
                },
            ],
            return_type: Type::Void,
            target_ui: TargetUI::Ext,
        },
        BuiltinPkgFunctions::ExtUIInputDropdownUsingTextByLabelExact => FunctionMetadata {
            name: "ExtUIInputDropdownUsingTextByLabelExact",
            display_name: "Input Dropdown Using Text By Label Exact",
            description: "Input dropdown using text on form by label form",
            args: vec![
                FunctionArgsMetadata {
                    display_name: "Label",
                    description: "Label to find",
                    arg_type: Type::Str,
                    default_value: "",
                },
                FunctionArgsMetadata {
                    display_name: "Input",
                    description: "Input to send",
                    arg_type: Type::Str,
                    default_value: "",
                },
            ],
            return_type: Type::Void,
            target_ui: TargetUI::Ext,
        },
        BuiltinPkgFunctions::ExtUIInputDropdownUsingIndexByLabelExact => FunctionMetadata {
            name: "ExtUIInputDropdownUsingIndexByLabelExact",
            display_name: "Input Dropdown Using Index By Label Exact",
            description: "Input dropdown using index on form by label form",
            args: vec![
                FunctionArgsMetadata {
                    display_name: "Label",
                    description: "Label to find",
                    arg_type: Type::Str,
                    default_value: "",
                },
                FunctionArgsMetadata {
                    display_name: "Input",
                    description: "Input to send",
                    arg_type: Type::Str,
                    default_value: "",
                },
            ],
            return_type: Type::Void,
            target_ui: TargetUI::Ext,
        },
        BuiltinPkgFunctions::ExtUIInputRadioUsingTextByLabelExact => FunctionMetadata {
            name: "ExtUIInputRadioUsingTextByLabelExact",
            display_name: "Input Radio Using Text By Label Exact",
            description: "Input radio using text on form by label form",
            args: vec![
                FunctionArgsMetadata {
                    display_name: "Label",
                    description: "Label to find",
                    arg_type: Type::Str,
                    default_value: "",
                },
                FunctionArgsMetadata {
                    display_name: "Input",
                    description: "Input to send",
                    arg_type: Type::Str,
                    default_value: "",
                },
            ],
            return_type: Type::Void,
            target_ui: TargetUI::Ext,
        },
        BuiltinPkgFunctions::ExtUIInputRadioUsingIndexByLabelExact => FunctionMetadata {
            name: "ExtUIInputRadioUsingIndexByLabelExact",
            display_name: "Input Radio Using Index By Label Exact",
            description: "Input radio using index on form by label form",
            args: vec![
                FunctionArgsMetadata {
                    display_name: "Label",
                    description: "Label to find",
                    arg_type: Type::Str,
                    default_value: "",
                },
                FunctionArgsMetadata {
                    display_name: "Input",
                    description: "Input to send",
                    arg_type: Type::Str,
                    default_value: "",
                },
            ],
            return_type: Type::Void,
            target_ui: TargetUI::Ext,
        },
        BuiltinPkgFunctions::GetAndSwitchToAnyIFrame => FunctionMetadata {
            name: "GetAndSwitchToAnyIFrame",
            display_name: "Get And Switch To Any IFrame",
            description: "Find any IFrame within current frame, and switch into it.",
            args: vec![],
            return_type: Type::Void,
            target_ui: TargetUI::Any,
        },
        BuiltinPkgFunctions::GetAndSwitchToParentIFrame => FunctionMetadata {
            name: "GetAndSwitchToParentIFrame",
            display_name: "Get And Switch To Parent IFrame",
            description: "Switch into parent IFrame",
            args: vec![],
            return_type: Type::Void,
            target_ui: TargetUI::Any,
        },
        BuiltinPkgFunctions::GetAndSwitchToRootIFrame => FunctionMetadata {
            name: "GetAndSwitchToRootIFrame",
            display_name: "Get And Switch To Root IFrame",
            description: "Switch to Root (top most) IFrame",
            args: vec![],
            return_type: Type::Void,
            target_ui: TargetUI::Any,
        },
        BuiltinPkgFunctions::SetWindowDimension => FunctionMetadata {
            name: "SetWindowDimension",
            display_name: "Set Window Dimension",
            description: "Set window mode to windowed, and resize window",
            args: vec![
                FunctionArgsMetadata {
                    display_name: "Width",
                    description: "Width of the window",
                    arg_type: Type::Number,
                    default_value: "800",
                },
                FunctionArgsMetadata {
                    display_name: "Height",
                    description: "Height of the window",
                    arg_type: Type::Number,
                    default_value: "600",
                },
            ],
            return_type: Type::Void,
            target_ui: TargetUI::Any,
        },
        BuiltinPkgFunctions::MUIInputTextboxByLabelExact => FunctionMetadata {
            name: "MUIInputTextboxByLabelExact",
            display_name: "Input Textbox By Label Exact",
            description: "Input textbox on form by label form",
            args: vec![
                FunctionArgsMetadata {
                    display_name: "Label",
                    description: "Label to find",
                    arg_type: Type::Str,
                    default_value: "",
                },
                FunctionArgsMetadata {
                    display_name: "Input",
                    description: "Input to send",
                    arg_type: Type::Str,
                    default_value: "",
                },
            ],
            return_type: Type::Void,
            target_ui: TargetUI::MUI,
        },
        BuiltinPkgFunctions::MUIInputDropdownUsingTextByLabelExact => FunctionMetadata {
            name: "MUIInputDropdownUsingTextByLabelExact",
            display_name: "Input Dropdown By Label Exact",
            description: "Input dropdown on form by label form",
            args: vec![
                FunctionArgsMetadata {
                    display_name: "Label",
                    description: "Label to find",
                    arg_type: Type::Str,
                    default_value: "",
                },
                FunctionArgsMetadata {
                    display_name: "Input",
                    description: "Input to send",
                    arg_type: Type::Str,
                    default_value: "",
                },
            ],
            return_type: Type::Void,
            target_ui: TargetUI::MUI,
        },
        BuiltinPkgFunctions::MUIInputDropdownUsingIndexByLabelExact => FunctionMetadata {
            name: "MUIInputDropdownUsingIndexByLabelExact",
            display_name: "Input Dropdown By Label Exact",
            description: "Input dropdown on form by label form",
            args: vec![
                FunctionArgsMetadata {
                    display_name: "Label",
                    description: "Label to find",
                    arg_type: Type::Str,
                    default_value: "",
                },
                FunctionArgsMetadata {
                    display_name: "Input",
                    description: "Input to send",
                    arg_type: Type::Str,
                    default_value: "",
                },
            ],
            return_type: Type::Void,
            target_ui: TargetUI::MUI,
        },
        BuiltinPkgFunctions::MUIInputRadioUsingTextByLabelExact => FunctionMetadata {
            name: "MUIInputRadioUsingTextByLabelExact",
            display_name: "Input Radio Using Text By Label Exact",
            description: "Input Radio on form by label form",
            args: vec![
                FunctionArgsMetadata {
                    display_name: "Label",
                    description: "Label to find",
                    arg_type: Type::Str,
                    default_value: "",
                },
                FunctionArgsMetadata {
                    display_name: "Input",
                    description: "Input to send",
                    arg_type: Type::Str,
                    default_value: "",
                },
            ],
            return_type: Type::Void,
            target_ui: TargetUI::MUI,
        },
        BuiltinPkgFunctions::MUIInputRadioUsingIndexByLabelExact => FunctionMetadata {
            name: "MUIInputRadioUsingIndexByLabelExact",
            display_name: "Input Radio Using Index By Label Exact",
            description: "Input Radio on form by label form",
            args: vec![
                FunctionArgsMetadata {
                    display_name: "Label",
                    description: "Label to find",
                    arg_type: Type::Str,
                    default_value: "",
                },
                FunctionArgsMetadata {
                    display_name: "Input",
                    description: "Input to send",
                    arg_type: Type::Str,
                    default_value: "",
                },
            ],
            return_type: Type::Void,
            target_ui: TargetUI::MUI,
        },
        BuiltinPkgFunctions::MUIInputDateByLabelExact => FunctionMetadata {
            name: "MUIInputDateByLabelExact",
            display_name: "Input Date By Label Exact",
            description: "Input date on form by label form",
            args: vec![
                FunctionArgsMetadata {
                    display_name: "Label",
                    description: "Label to find",
                    arg_type: Type::Str,
                    default_value: "",
                },
                FunctionArgsMetadata {
                    display_name: "Input",
                    description: "Input to send",
                    arg_type: Type::Str,
                    default_value: "",
                },
            ],
            return_type: Type::Void,
            target_ui: TargetUI::MUI,
        },
        BuiltinPkgFunctions::MUIInputTimeByLabelExact => FunctionMetadata {
            name: "MUIInputTimeByLabelExact",
            display_name: "Input Time By Label Exact",
            description: "Input time on form by label form",
            args: vec![
                FunctionArgsMetadata {
                    display_name: "Label",
                    description: "Label to find",
                    arg_type: Type::Str,
                    default_value: "",
                },
                FunctionArgsMetadata {
                    display_name: "Input",
                    description: "Input to send",
                    arg_type: Type::Str,
                    default_value: "",
                },
            ],
            return_type: Type::Void,
            target_ui: TargetUI::MUI,
        },
        BuiltinPkgFunctions::MUIInputHtmlByLabelExact => FunctionMetadata {
            name: "MUIInputHtmlByLabelExact",
            display_name: "Input HTML By Label Exact",
            description: "Input HTML on form by label form",
            args: vec![
                FunctionArgsMetadata {
                    display_name: "Label",
                    description: "Label to find",
                    arg_type: Type::Str,
                    default_value: "",
                },
                FunctionArgsMetadata {
                    display_name: "Input",
                    description: "Input to send",
                    arg_type: Type::Str,
                    default_value: "",
                },
            ],
            return_type: Type::Void,
            target_ui: TargetUI::MUI,
        },
    }
}

} // verus!
